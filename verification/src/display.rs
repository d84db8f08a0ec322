//! The displays of the machine: which one is primary, in which order the
//! others are covered, and how their viewports are told apart.

use crate::text::{lemma_text_order, rank, text_before, Rank};
use vstd::prelude::*;

verus! {

/// One physical display, as the system reports it.
#[derive(Debug)]
pub struct DisplaySurface {
    /// The identifier that the system gives the display.
    pub id: u32,
    /// The name of the display.
    pub name: String,
    /// The physical origin of the display.
    pub x: i32,
    pub y: i32,
    /// The scale factor of the display, as the bits of a 32-bit float.
    pub scale_bits: u32,
    /// Whether the display is the primary one.
    pub is_primary: bool,
}

/// What a display holds.
pub struct DisplaySurfaceView {
    pub id: u32,
    pub name: Seq<char>,
    pub x: i32,
    pub y: i32,
    pub scale_bits: u32,
    pub is_primary: bool,
}

impl View for DisplaySurface {
    type V = DisplaySurfaceView;

    open spec fn view(&self) -> DisplaySurfaceView {
        DisplaySurfaceView {
            id: self.id,
            name: self.name@,
            x: self.x,
            y: self.y,
            scale_bits: self.scale_bits,
            is_primary: self.is_primary,
        }
    }
}

/// What tells the viewport of one secondary display from all others: the
/// identifier of the display and its place among the secondary displays.
/// The place alone already differs from viewport to viewport, so that two
/// displays that report one identifier still get two viewports.
#[derive(PartialEq, Eq, Debug, Clone, Copy, Hash, Structural)]
pub struct ViewportIdentity {
    pub native_id: u32,
    pub ordinal: usize,
}

/// Why the displays cannot be used.
#[derive(PartialEq, Eq, Debug, Clone, Copy, Structural)]
pub enum TopologyError {
    /// There is no display at all.
    NoDisplays,
    /// No display is marked as the primary one.
    NoPrimary,
}

impl TopologyError {
    /// A sentence for the log.
    pub fn message(&self) -> (text: &'static str)
        ensures
            text@ == match *self {
                TopologyError::NoDisplays => "Can't find any displays"@,
                TopologyError::NoPrimary => "Can't find the primary display"@,
            },
    {
        match self {
            TopologyError::NoDisplays => "Can't find any displays",
            TopologyError::NoPrimary => "Can't find the primary display",
        }
    }
}

/// The views of a row of displays.
pub open spec fn surfaces(displays: Seq<DisplaySurface>) -> Seq<DisplaySurfaceView> {
    displays.map_values(|d: DisplaySurface| d@)
}

/// The place of the first display from `from` on that is marked primary.
pub open spec fn first_primary(displays: Seq<DisplaySurfaceView>, from: int) -> Option<int>
    decreases displays.len() - from,
{
    if from < 0 || from >= displays.len() {
        None
    } else if displays[from].is_primary {
        Some(from)
    } else {
        first_primary(displays, from + 1)
    }
}

/// The displays without the one at `place`: the last display takes the
/// place of the one that leaves.
pub open spec fn without_display(displays: Seq<DisplaySurfaceView>, place: int) -> Seq<
    DisplaySurfaceView,
> {
    displays.update(place, displays.last()).drop_last()
}

/// `display` put into a row that is sorted by name: behind every display
/// whose name does not come after its own.
pub open spec fn insert_by_name(sorted: Seq<DisplaySurfaceView>, display: DisplaySurfaceView)
    -> Seq<DisplaySurfaceView>
    decreases sorted.len(),
{
    if sorted.len() > 0 && text_before(display.name, sorted.last().name) {
        insert_by_name(sorted.drop_last(), display).push(sorted.last())
    } else {
        sorted.push(display)
    }
}

/// The displays sorted by name. Displays of one name keep their order.
pub open spec fn sorted_by_name(displays: Seq<DisplaySurfaceView>) -> Seq<DisplaySurfaceView>
    decreases displays.len(),
{
    if displays.len() == 0 {
        displays
    } else {
        insert_by_name(sorted_by_name(displays.drop_last()), displays.last())
    }
}

/// Whether no display of the row has a name that comes before the name
/// of a display in front of it.
pub open spec fn ordered_by_name(displays: Seq<DisplaySurfaceView>) -> bool {
    forall|i: int, j: int|
        0 <= i < j < displays.len() ==> !text_before(
            (#[trigger] displays[j]).name,
            (#[trigger] displays[i]).name,
        )
}

/// A display as one of the secondary displays.
pub open spec fn as_secondary(display: DisplaySurfaceView) -> DisplaySurfaceView {
    DisplaySurfaceView { is_primary: false, ..display }
}

/// The displays of the machine put in their roles.
pub struct TopologyView {
    pub primary: DisplaySurfaceView,
    pub secondary: Seq<DisplaySurfaceView>,
}

/// The roles of the displays: the first display that is marked primary is
/// the primary one. The others are secondary, sorted by name, if more
/// than one display is to be covered; else there are no secondary
/// displays.
pub open spec fn topology_of(displays: Seq<DisplaySurfaceView>, attempt_multiscreen: bool)
    -> Result<TopologyView, TopologyError> {
    if displays.len() == 0 {
        Err(TopologyError::NoDisplays)
    } else {
        match first_primary(displays, 0) {
            None => Err(TopologyError::NoPrimary),
            Some(place) => Ok(
                TopologyView {
                    primary: displays[place],
                    secondary: if attempt_multiscreen {
                        sorted_by_name(without_display(displays, place)).map_values(
                            |d: DisplaySurfaceView| as_secondary(d),
                        )
                    } else {
                        Seq::empty()
                    },
                },
            ),
        }
    }
}

/// The identities of the viewports of the secondary displays.
pub open spec fn viewport_identities(secondary: Seq<DisplaySurfaceView>) -> Seq<ViewportIdentity> {
    Seq::new(
        secondary.len(),
        |i: int| ViewportIdentity { native_id: secondary[i].id, ordinal: i as usize },
    )
}

/// Where a primary display is found, it is marked primary and none before
/// it is.
pub proof fn lemma_first_primary(displays: Seq<DisplaySurfaceView>, from: int)
    requires
        0 <= from,
    ensures
        match first_primary(displays, from) {
            Some(place) => from <= place < displays.len() && displays[place].is_primary
                && forall|k: int| from <= k < place ==> !(#[trigger] displays[k]).is_primary,
            None => forall|k: int| from <= k < displays.len() ==> !(#[trigger] displays[k]).is_primary,
        },
    decreases displays.len() - from,
{
    if from < displays.len() && !displays[from].is_primary {
        lemma_first_primary(displays, from + 1);
    }
}

/// Putting a display into a row makes the row one longer, and holds the
/// displays of the row and the new one.
pub proof fn lemma_insert_by_name(sorted: Seq<DisplaySurfaceView>, display: DisplaySurfaceView)
    ensures
        insert_by_name(sorted, display).len() == sorted.len() + 1,
        insert_by_name(sorted, display).to_multiset() == sorted.to_multiset().insert(display),
        ordered_by_name(sorted) ==> ordered_by_name(insert_by_name(sorted, display)),
    decreases sorted.len(),
{
    broadcast use vstd::seq_lib::group_to_multiset_ensures;

    let put = insert_by_name(sorted, display);
    if sorted.len() > 0 && text_before(display.name, sorted.last().name) {
        let front = sorted.drop_last();
        lemma_insert_by_name(front, display);
        let inner = insert_by_name(front, display);
        assert(sorted =~= front.push(sorted.last()));
        if ordered_by_name(sorted) {
            assert(ordered_by_name(front)) by {
                assert forall|i: int, j: int| 0 <= i < j < front.len() implies !text_before(
                    (#[trigger] front[j]).name,
                    (#[trigger] front[i]).name,
                ) by {}
            }
            assert forall|i: int, j: int| 0 <= i < j < put.len() implies !text_before(
                (#[trigger] put[j]).name,
                (#[trigger] put[i]).name,
            ) by {
                if j >= inner.len() {
                    // Every display of `inner` is `display` or one of `front`.
                    assert(inner.to_multiset().count(inner[i]) > 0);
                    if inner[i] == display {
                        lemma_text_order(display.name, sorted.last().name, display.name);
                    }
                }
            }
        }
    } else {
        if ordered_by_name(sorted) {
            assert forall|i: int, j: int| 0 <= i < j < put.len() implies !text_before(
                (#[trigger] put[j]).name,
                (#[trigger] put[i]).name,
            ) by {
                if j >= sorted.len() && sorted.len() > 0 {
                    let last = sorted[sorted.len() - 1];
                    if i < sorted.len() - 1 {
                        // put[i] <= last <= display
                        if text_before(display.name, sorted[i].name) {
                            lemma_text_order(display.name, sorted[i].name, last.name);
                            lemma_text_order(sorted[i].name, last.name, last.name);
                        }
                    }
                }
            }
        }
    }
}

/// Sorting keeps the displays, each as often as it occurred, and puts
/// them in the order of their names.
pub proof fn lemma_sorted_by_name(displays: Seq<DisplaySurfaceView>)
    ensures
        sorted_by_name(displays).len() == displays.len(),
        sorted_by_name(displays).to_multiset() == displays.to_multiset(),
        ordered_by_name(sorted_by_name(displays)),
    decreases displays.len(),
{
    broadcast use vstd::seq_lib::group_to_multiset_ensures;

    if displays.len() > 0 {
        let front = displays.drop_last();
        lemma_sorted_by_name(front);
        lemma_insert_by_name(sorted_by_name(front), displays.last());
        assert(displays =~= front.push(displays.last()));
    }
}

/// With one display there is no secondary display, whether or not more
/// displays are to be covered.
pub proof fn lemma_single_display(displays: Seq<DisplaySurfaceView>, attempt_multiscreen: bool)
    requires
        displays.len() == 1,
        topology_of(displays, attempt_multiscreen) is Ok,
    ensures
        topology_of(displays, attempt_multiscreen)->Ok_0.secondary.len() == 0,
{
    lemma_first_primary(displays, 0);
    let place = first_primary(displays, 0)->Some_0;
    lemma_sorted_by_name(without_display(displays, place));
}

/// Where all of several displays are to be covered, one display is the
/// primary one, all others are secondary and none of those is marked
/// primary, and the viewports of the secondary displays have identities
/// that differ from each other.
pub proof fn lemma_all_displays_covered(displays: Seq<DisplaySurfaceView>)
    requires
        topology_of(displays, true) is Ok,
    ensures
        ({
            let topology = topology_of(displays, true)->Ok_0;
            let identities = viewport_identities(topology.secondary);
            &&& topology.primary.is_primary
            &&& topology.secondary.len() == displays.len() - 1
            &&& forall|i: int|
                0 <= i < topology.secondary.len() ==> !(#[trigger] topology.secondary[i]).is_primary
            &&& identities.len() == displays.len() - 1
            &&& (displays.len() - 1 <= usize::MAX ==> identities.no_duplicates())
        }),
{
    lemma_first_primary(displays, 0);
    let place = first_primary(displays, 0)->Some_0;
    lemma_sorted_by_name(without_display(displays, place));
}

/// The displays of the machine, each in its role.
#[derive(Debug)]
pub struct DisplayTopology {
    primary: DisplaySurface,
    secondary: Vec<DisplaySurface>,
}

impl View for DisplayTopology {
    type V = TopologyView;

    closed spec fn view(&self) -> TopologyView {
        TopologyView { primary: self.primary@, secondary: surfaces(self.secondary@) }
    }
}

/// Finds where `display` belongs in a row sorted by name: behind every
/// display whose name does not come after its own.
fn place_by_name(sorted: &Vec<DisplaySurface>, display: &DisplaySurface) -> (place: usize)
    ensures
        place <= sorted.len(),
        insert_by_name(surfaces(sorted@), display@) == surfaces(sorted@).insert(
            place as int,
            display@,
        ),
{
    let ghost row = surfaces(sorted@);
    let mut place = sorted.len();
    proof {
        assert(row.take(place as int) =~= row);
    }
    while place > 0
        invariant
            place <= sorted.len(),
            row == surfaces(sorted@),
            insert_by_name(row, display@) == insert_by_name(row.take(place as int), display@)
                + row.skip(place as int),
        decreases place,
    {
        let ghost front = row.take(place as int);
        match rank(display.name.as_str(), sorted[place - 1].name.as_str()) {
            Rank::Before => {
                proof {
                    assert(front.drop_last() =~= row.take(place - 1));
                }
                place -= 1;
            },
            _ => {
                proof {
                    lemma_text_order(display@.name, front.last().name, display@.name);
                }
                return place;
            },
        }
    }
    place
}

/// Whether the displays can be used, and if so which of them is the
/// primary one: the first that is marked primary.
pub open spec fn primary_place(displays: Seq<DisplaySurfaceView>) -> Result<int, TopologyError> {
    if displays.len() == 0 {
        Err(TopologyError::NoDisplays)
    } else {
        match first_primary(displays, 0) {
            None => Err(TopologyError::NoPrimary),
            Some(place) => Ok(place),
        }
    }
}

/// Finds the primary display. Fails where there is no display, or none
/// that is marked primary. The displays can be put in their roles
/// exactly when this succeeds, whether or not more than one display is
/// to be covered.
pub fn find_primary(displays: &Vec<DisplaySurface>) -> (place: Result<usize, TopologyError>)
    ensures
        match primary_place(surfaces(displays@)) {
            Ok(p) => 0 <= p < displays@.len() && place == Ok::<usize, TopologyError>(p as usize),
            Err(e) => place == Err::<usize, TopologyError>(e),
        },
        forall|attempt_multiscreen: bool|
            place is Ok <==> #[trigger] topology_of(surfaces(displays@), attempt_multiscreen) is Ok,
        forall|attempt_multiscreen: bool|
            place is Err ==> (#[trigger] topology_of(
                surfaces(displays@),
                attempt_multiscreen,
            )) is Err && topology_of(surfaces(displays@), attempt_multiscreen)->Err_0
                == place->Err_0,
{
    let ghost all = surfaces(displays@);
    if displays.len() == 0 {
        return Err(TopologyError::NoDisplays);
    }
    let mut place: usize = 0;
    while place < displays.len() && !displays[place].is_primary
        invariant
            place <= displays.len(),
            all == surfaces(displays@),
            first_primary(all, 0) == first_primary(all, place as int),
        decreases displays.len() - place,
    {
        place += 1;
    }
    if place == displays.len() {
        return Err(TopologyError::NoPrimary);
    }
    Ok(place)
}

/// Puts the displays of the machine in their roles. Fails where there is
/// no display, or none that is marked primary.
pub fn resolve_topology(displays: Vec<DisplaySurface>, attempt_multiscreen: bool) -> (topology:
    Result<DisplayTopology, TopologyError>)
    ensures
        match topology_of(surfaces(displays@), attempt_multiscreen) {
            Ok(roles) => topology is Ok && topology->Ok_0@ == roles,
            Err(e) => topology == Err::<DisplayTopology, TopologyError>(e),
        },
        displays@.len() == 1 && topology is Ok ==> topology->Ok_0@.secondary.len() == 0,
{
    let ghost all = surfaces(displays@);
    let place = match find_primary(&displays) {
        Ok(place) => place,
        Err(e) => {
            return Err(e);
        },
    };
    assert(all[place as int] == displays@[place as int]@);
    let mut others = displays;
    let primary = others.swap_remove(place);
    let ghost rest = without_display(all, place as int);
    proof {
        if all.len() == 1 {
            lemma_single_display(all, attempt_multiscreen);
        }
    }
    if !attempt_multiscreen {
        let topology = DisplayTopology { primary, secondary: Vec::new() };
        assert(topology@.secondary =~= Seq::empty());
        return Ok(topology);
    }
    // The displays are taken from the back of a vector, so turn them round first.
    let n = others.len();
    let mut pending: Vec<DisplaySurface> = Vec::new();
    while others.len() > 0
        invariant
            others.len() + pending.len() == n,
            n == rest.len(),
            forall|k: int| 0 <= k < others.len() ==> (#[trigger] others@[k])@ == rest[k],
            forall|k: int| 0 <= k < pending.len() ==> (#[trigger] pending@[k])@ == rest[n - 1 - k],
        decreases others.len(),
    {
        let d = others.pop().unwrap();
        pending.push(d);
    }
    let mut sorted: Vec<DisplaySurface> = Vec::new();
    let mut i: usize = 0;
    while i < n
        invariant
            i <= n,
            n == rest.len(),
            pending.len() == n - i,
            forall|k: int| 0 <= k < pending.len() ==> (#[trigger] pending@[k])@ == rest[n - 1 - k],
            surfaces(sorted@) == sorted_by_name(rest.take(i as int)).map_values(
                |d: DisplaySurfaceView| as_secondary(d),
            ),
        decreases n - i,
    {
        let mut d = pending.pop().unwrap();
        let ghost reported = d@;
        d.is_primary = false;
        let ghost before = sorted_by_name(rest.take(i as int));
        let at = place_by_name(&sorted, &d);
        proof {
            assert(rest.take(i + 1).drop_last() =~= rest.take(i as int));
            lemma_insert_commutes(before, reported);
        }
        sorted.insert(at, d);
        i += 1;
    }
    assert(rest.take(n as int) =~= rest);
    Ok(DisplayTopology { primary, secondary: sorted })
}

/// Putting a display into a row gives the same places whether or not the
/// displays are first marked as secondary: the mark is no part of the
/// name.
pub proof fn lemma_insert_commutes(sorted: Seq<DisplaySurfaceView>, display: DisplaySurfaceView)
    ensures
        insert_by_name(
            sorted.map_values(|d: DisplaySurfaceView| as_secondary(d)),
            as_secondary(display),
        ) == insert_by_name(sorted, display).map_values(|d: DisplaySurfaceView| as_secondary(d)),
    decreases sorted.len(),
{
    let marked = sorted.map_values(|d: DisplaySurfaceView| as_secondary(d));
    if sorted.len() > 0 && text_before(display.name, sorted.last().name) {
        lemma_insert_commutes(sorted.drop_last(), display);
        assert(marked.drop_last() =~= sorted.drop_last().map_values(
            |d: DisplaySurfaceView| as_secondary(d),
        ));
    }
}

impl DisplayTopology {
    /// One display is the primary one, and no secondary display is marked
    /// primary.
    pub open spec fn wf(&self) -> bool {
        forall|i: int|
            0 <= i < self@.secondary.len() ==> !(#[trigger] self@.secondary[i]).is_primary
    }

    /// The primary display.
    pub fn primary(&self) -> (display: &DisplaySurface)
        ensures
            display@ == self@.primary,
    {
        &self.primary
    }

    /// The number of secondary displays.
    pub fn secondary_len(&self) -> (n: usize)
        ensures
            n == self@.secondary.len(),
    {
        self.secondary.len()
    }

    /// The secondary display at place `ordinal`.
    pub fn secondary(&self, ordinal: usize) -> (display: &DisplaySurface)
        requires
            ordinal < self@.secondary.len(),
        ensures
            display@ == self@.secondary[ordinal as int],
    {
        &self.secondary[ordinal]
    }

    /// The identity of the viewport of the secondary display at place
    /// `ordinal`.
    pub fn viewport_identity(&self, ordinal: usize) -> (identity: ViewportIdentity)
        requires
            ordinal < self@.secondary.len(),
        ensures
            identity == viewport_identities(self@.secondary)[ordinal as int],
    {
        ViewportIdentity { native_id: self.secondary[ordinal].id, ordinal }
    }

    /// The identities of the viewports of all secondary displays. No two
    /// of them are the same.
    pub fn viewport_identities(&self) -> (identities: Vec<ViewportIdentity>)
        ensures
            identities@ == viewport_identities(self@.secondary),
            identities@.no_duplicates(),
    {
        let mut identities: Vec<ViewportIdentity> = Vec::new();
        let mut i: usize = 0;
        while i < self.secondary.len()
            invariant
                i <= self.secondary.len(),
                identities.len() == i,
                forall|k: int|
                    0 <= k < i ==> #[trigger] identities@[k] == (ViewportIdentity {
                        native_id: self.secondary@[k].id,
                        ordinal: k as usize,
                    }),
            decreases self.secondary.len() - i,
        {
            identities.push(ViewportIdentity { native_id: self.secondary[i].id, ordinal: i });
            i += 1;
        }
        identities
    }
}

} // verus!
