//! Showing the active dream on every display, frame by frame: what each
//! frame asks of the windowing layer, when a viewport is repainted, and
//! when everything is closed.

use crate::app_settings::{SettingsRaw, ViewportMode};
use crate::display::{
    resolve_topology, surfaces, topology_of, viewport_identities, DisplaySurface,
    DisplaySurfaceView, DisplayTopology, TopologyView, ViewportIdentity,
};
use crate::dreams::{
    build_dream_by_id, catalog_index, find_dream, lemma_catalog_ids_differ, stored_text, ADream,
    DreamUpdateRate,
};
use crate::text::texts;
use crate::registry::is_offered;
use rand::Rng;
use vstd::prelude::*;

verus! {

/// The number of frames over which the frame rate is measured.
pub const RENDER_MEASURE_SIZE: usize = 10;

/// A frame rate: so many frames in so many nanoseconds.
#[derive(PartialEq, Eq, Debug, Clone, Copy, Structural)]
pub struct FrameRate {
    pub frames: u64,
    pub nanos: u64,
}

impl FrameRate {
    /// Whether the rate is a positive number of frames per second.
    pub open spec fn is_positive(self) -> bool {
        self.frames > 0 && self.nanos > 0
    }
}

/// The time from `earlier` to `later`, or none if `later` is not later.
pub open spec fn gap(earlier: u64, later: u64) -> u64 {
    if later >= earlier {
        (later - earlier) as u64
    } else {
        0
    }
}

/// The longest time between two frames that follow each other.
pub open spec fn longest_gap(stamps: Seq<u64>) -> u64
    decreases stamps.len(),
{
    if stamps.len() < 2 {
        0
    } else {
        let before = longest_gap(stamps.drop_last());
        let last = gap(stamps[stamps.len() - 2], stamps[stamps.len() - 1]);
        if last > before {
            last
        } else {
            before
        }
    }
}

/// Whether no time stamp is earlier than the one before it.
pub open spec fn rising(stamps: Seq<u64>) -> bool {
    forall|i: int| 0 < i < stamps.len() ==> stamps[i - 1] <= #[trigger] stamps[i]
}

/// What a frame-rate monitor holds: the rates of the last full batch of
/// frames, and the time stamps of the batch that is being filled.
pub struct FpsView {
    pub avg: Option<FrameRate>,
    pub worst: Option<FrameRate>,
    pub pending: Seq<u64>,
}

/// The monitor after a frame was recorded at `now`. The frame that fills
/// the batch gives new rates and empties the batch: the average rate
/// over the whole batch, and the rate of its slowest frame.
pub open spec fn recorded(monitor: FpsView, now: u64) -> FpsView {
    let batch = monitor.pending.push(now);
    if batch.len() == RENDER_MEASURE_SIZE {
        FpsView {
            avg: Some(
                FrameRate {
                    frames: (RENDER_MEASURE_SIZE - 1) as u64,
                    nanos: gap(batch[0], batch[RENDER_MEASURE_SIZE - 1]),
                },
            ),
            worst: Some(FrameRate { frames: 1, nanos: longest_gap(batch) }),
            pending: Seq::empty(),
        }
    } else {
        FpsView { pending: batch, ..monitor }
    }
}

/// The monitor after frames were recorded at each of `stamps` in turn.
pub open spec fn recorded_all(monitor: FpsView, stamps: Seq<u64>) -> FpsView
    decreases stamps.len(),
{
    if stamps.len() == 0 {
        monitor
    } else {
        recorded(recorded_all(monitor, stamps.drop_last()), stamps.last())
    }
}

/// A monitor that has measured nothing yet.
pub open spec fn fresh_monitor() -> FpsView {
    FpsView { avg: None, worst: None, pending: Seq::empty() }
}

/// Where time stamps rise and the last is later than the first, the
/// longest gap between two of them is a positive time.
pub proof fn lemma_longest_gap_positive(stamps: Seq<u64>)
    requires
        stamps.len() >= 2,
        rising(stamps),
        stamps[0] < stamps[stamps.len() - 1],
    ensures
        longest_gap(stamps) > 0,
        gap(stamps[0], stamps[stamps.len() - 1]) > 0,
    decreases stamps.len(),
{
    let n = stamps.len() as int;
    if stamps[n - 2] == stamps[n - 1] {
        let front = stamps.drop_last();
        assert(rising(front)) by {
            assert forall|i: int| 0 < i < front.len() implies front[i - 1] <= #[trigger] front[i] by {}
        }
        lemma_longest_gap_positive(front);
    }
}

/// A fresh monitor reports no rate while fewer frames were recorded than
/// a batch holds; the frames recorded so far are all pending.
pub proof fn lemma_no_rate_before_full(stamps: Seq<u64>)
    requires
        stamps.len() < RENDER_MEASURE_SIZE,
    ensures
        recorded_all(fresh_monitor(), stamps) == (FpsView {
            avg: None,
            worst: None,
            pending: stamps,
        }),
    decreases stamps.len(),
{
    if stamps.len() > 0 {
        lemma_no_rate_before_full(stamps.drop_last());
        assert(stamps.drop_last().push(stamps.last()) =~= stamps);
    } else {
        assert(stamps =~= Seq::empty());
    }
}

/// With the frame that fills the first batch a fresh monitor reports its
/// rates. Where the time stamps of the batch rise, both rates are
/// positive, unless no time has passed from the first frame to the last.
pub proof fn lemma_rates_when_full(stamps: Seq<u64>)
    requires
        stamps.len() == RENDER_MEASURE_SIZE,
    ensures
        recorded_all(fresh_monitor(), stamps).avg is Some,
        recorded_all(fresh_monitor(), stamps).worst is Some,
        recorded_all(fresh_monitor(), stamps).pending.len() == 0,
        rising(stamps) && stamps[0] < stamps[RENDER_MEASURE_SIZE - 1] ==> recorded_all(
            fresh_monitor(),
            stamps,
        ).avg->Some_0.is_positive() && recorded_all(
            fresh_monitor(),
            stamps,
        ).worst->Some_0.is_positive(),
{
    lemma_no_rate_before_full(stamps.drop_last());
    assert(stamps.drop_last().push(stamps.last()) =~= stamps);
    if rising(stamps) && stamps[0] < stamps[RENDER_MEASURE_SIZE - 1] {
        lemma_longest_gap_positive(stamps);
    }
}

/// The frame-rate monitor: it collects the time stamps of a batch of
/// frames and then reports the rates of that batch.
#[derive(Debug)]
pub struct FPSMeasureData {
    avg: Option<FrameRate>,
    worst: Option<FrameRate>,
    render_timestamps: Vec<u64>,
}

impl View for FPSMeasureData {
    type V = FpsView;

    closed spec fn view(&self) -> FpsView {
        FpsView { avg: self.avg, worst: self.worst, pending: self.render_timestamps@ }
    }
}

impl FPSMeasureData {
    /// The batch that is being filled is not full.
    pub open spec fn wf(&self) -> bool {
        self@.pending.len() < RENDER_MEASURE_SIZE
    }

    /// A monitor that has measured nothing yet.
    pub fn new() -> (monitor: FPSMeasureData)
        ensures
            monitor.wf(),
            monitor@ == fresh_monitor(),
    {
        FPSMeasureData { avg: None, worst: None, render_timestamps: Vec::new() }
    }

    /// The average rate over the last full batch, if there was one.
    pub fn avg(&self) -> (rate: Option<FrameRate>)
        ensures
            rate == self@.avg,
    {
        self.avg
    }

    /// The rate of the slowest frame of the last full batch, if there was
    /// one.
    pub fn worst(&self) -> (rate: Option<FrameRate>)
        ensures
            rate == self@.worst,
    {
        self.worst
    }

    /// Records that a frame is drawn at `now`, a time in nanoseconds.
    pub fn record_timestamp(&mut self, now: u64)
        requires
            old(self).wf(),
        ensures
            final(self).wf(),
            final(self)@ == recorded(old(self)@, now),
    {
        self.render_timestamps.push(now);
        if self.render_timestamps.len() == RENDER_MEASURE_SIZE {
            let ghost batch = self.render_timestamps@;
            let mut longest: u64 = 0;
            let mut i: usize = 1;
            while i < RENDER_MEASURE_SIZE
                invariant
                    1 <= i <= RENDER_MEASURE_SIZE,
                    batch == self.render_timestamps@,
                    batch.len() == RENDER_MEASURE_SIZE,
                    longest == longest_gap(batch.take(i as int)),
                decreases RENDER_MEASURE_SIZE - i,
            {
                let earlier = self.render_timestamps[i - 1];
                let later = self.render_timestamps[i];
                let between = if later >= earlier {
                    later - earlier
                } else {
                    0
                };
                proof {
                    let next = batch.take(i + 1);
                    assert(next.drop_last() =~= batch.take(i as int));
                }
                if between > longest {
                    longest = between;
                }
                i += 1;
            }
            assert(batch.take(RENDER_MEASURE_SIZE as int) =~= batch);
            let first = self.render_timestamps[0];
            let last = self.render_timestamps[RENDER_MEASURE_SIZE - 1];
            let sum = if last >= first {
                last - first
            } else {
                0
            };
            self.avg = Some(FrameRate { frames: (RENDER_MEASURE_SIZE - 1) as u64, nanos: sum });
            self.worst = Some(FrameRate { frames: 1, nanos: longest });
            self.render_timestamps.clear();
        }
    }
}

/// One of the viewports: the primary one, or that of a secondary display.
#[derive(PartialEq, Eq, Debug, Clone, Copy, Structural)]
pub enum ViewportTarget {
    Primary,
    Secondary(ViewportIdentity),
}

/// What a viewport is told to do.
#[derive(PartialEq, Eq, Debug, Clone, Copy, Structural)]
pub enum ViewportCommand {
    /// Move to the logical origin of a display: its physical origin
    /// divided by its scale factor, which is given as the bits of a
    /// 32-bit float.
    OuterPosition { x: i32, y: i32, scale_bits: u32 },
    /// Cover the whole display, or stop doing so.
    Fullscreen(bool),
    /// Close.
    Close,
}

/// When a viewport is to be painted again.
#[derive(PartialEq, Eq, Debug, Clone, Copy, Structural)]
pub enum RepaintRequest {
    /// The viewport asks for nothing: it is painted with the primary one.
    NotRequested,
    /// As soon as possible.
    AsSoonAsPossible,
    /// No sooner than after the given number of nanoseconds.
    After(u64),
}

/// The viewport of one secondary display as a frame wants it: full
/// screen at the logical origin of its display, without a task bar entry.
#[derive(PartialEq, Eq, Debug, Clone, Copy, Structural)]
pub struct SecondaryViewport {
    pub identity: ViewportIdentity,
    /// The physical origin of the display.
    pub x: i32,
    pub y: i32,
    /// The scale factor of the display, as the bits of a 32-bit float.
    pub scale_bits: u32,
    /// Whether the viewport is painted within the frame of the primary
    /// viewport or by a callback of its own.
    pub mode: ViewportMode,
}

/// What one frame asks of the windowing layer before the primary
/// viewport is painted.
#[derive(Debug)]
pub struct FramePlan {
    /// What the primary viewport is told first.
    pub primary_commands: Vec<ViewportCommand>,
    /// The viewports of the secondary displays, which all show the
    /// active dream.
    pub secondary: Vec<SecondaryViewport>,
    /// Whether the frame rate is shown on the primary viewport.
    pub show_fps: bool,
}

/// What is told to the primary viewport in the first frame, and only
/// then: where to be, and to cover its display.
pub open spec fn first_frame_commands(primary: DisplaySurfaceView) -> Seq<ViewportCommand> {
    seq![
        ViewportCommand::OuterPosition {
            x: primary.x,
            y: primary.y,
            scale_bits: primary.scale_bits,
        },
        ViewportCommand::Fullscreen(true),
    ]
}

/// The viewports of the secondary displays, each with its identity.
pub open spec fn secondary_viewports(secondary: Seq<DisplaySurfaceView>, mode: ViewportMode) -> Seq<
    SecondaryViewport,
> {
    Seq::new(
        secondary.len(),
        |i: int|
            SecondaryViewport {
                identity: viewport_identities(secondary)[i],
                x: secondary[i].x,
                y: secondary[i].y,
                scale_bits: secondary[i].scale_bits,
                mode,
            },
    )
}

/// Every viewport there is: the primary one, then those of the secondary
/// displays.
pub open spec fn all_viewports(secondary: Seq<DisplaySurfaceView>) -> Seq<ViewportTarget> {
    seq![ViewportTarget::Primary] + viewport_identities(secondary).map_values(
        |id: ViewportIdentity| ViewportTarget::Secondary(id),
    )
}

/// When a viewport that shows a dream with the rate `rate` is painted
/// again. In immediate mode a secondary viewport asks for nothing.
pub open spec fn repaint_for(mode: ViewportMode, is_primary_viewport: bool, rate: DreamUpdateRate)
    -> RepaintRequest {
    if mode == ViewportMode::Immediate && !is_primary_viewport {
        RepaintRequest::NotRequested
    } else {
        match rate {
            DreamUpdateRate::Smooth => RepaintRequest::AsSoonAsPossible,
            DreamUpdateRate::Fixed(nanos) => RepaintRequest::After(nanos),
        }
    }
}

/// When each viewport is painted again, the primary one first: in
/// immediate mode the secondary viewports ask for nothing, in deferred
/// mode every viewport asks for itself.
pub open spec fn repaints_for(
    mode: ViewportMode,
    rate: DreamUpdateRate,
    viewports: Seq<ViewportTarget>,
) -> Seq<(ViewportTarget, RepaintRequest)> {
    viewports.map_values(
        |v: ViewportTarget| (v, repaint_for(mode, v == ViewportTarget::Primary, rate)),
    )
}

/// What the viewports are told after a surface was painted: once the
/// pointer was released on it, every viewport is closed.
pub open spec fn commands_after_input(pointer_released: bool, viewports: Seq<ViewportTarget>)
    -> Seq<(ViewportTarget, ViewportCommand)> {
    if pointer_released {
        viewports.map_values(|v: ViewportTarget| (v, ViewportCommand::Close))
    } else {
        Seq::empty()
    }
}

/// Decides when a viewport is painted again, from the rate that the
/// active dream prefers at the moment.
pub fn request_updates(mode: ViewportMode, is_primary_viewport: bool, update_rate: DreamUpdateRate)
    -> (request: RepaintRequest)
    ensures
        request == repaint_for(mode, is_primary_viewport, update_rate),
{
    if let ViewportMode::Immediate = mode {
        if !is_primary_viewport {
            // Secondary viewports are not updated on their own in immediate mode.
            return RepaintRequest::NotRequested;
        }
    }
    match update_rate {
        DreamUpdateRate::Smooth => RepaintRequest::AsSoonAsPossible,
        DreamUpdateRate::Fixed(nanos) => RepaintRequest::After(nanos),
    }
}

/// Whether the dream `id` can be shown: it is a dream of the catalog,
/// and it is offered.
pub open spec fn is_eligible(id: Seq<char>, allow_dev_dreams: bool) -> bool {
    match catalog_index(id) {
        Some(place) => is_offered(place, allow_dev_dreams),
        None => false,
    }
}

/// The selected dreams that can be shown, in the order of the selection.
pub open spec fn eligible_ids(selected: Seq<Seq<char>>, allow_dev_dreams: bool) -> Seq<Seq<char>>
    decreases selected.len(),
{
    if selected.len() == 0 {
        selected
    } else {
        let front = eligible_ids(selected.drop_last(), allow_dev_dreams);
        if is_eligible(selected.last(), allow_dev_dreams) {
            front.push(selected.last())
        } else {
            front
        }
    }
}

/// Every eligible dream is selected and can be shown.
pub proof fn lemma_eligible_ids(selected: Seq<Seq<char>>, allow_dev_dreams: bool, k: int)
    requires
        0 <= k < eligible_ids(selected, allow_dev_dreams).len(),
    ensures
        selected.contains(eligible_ids(selected, allow_dev_dreams)[k]),
        is_eligible(eligible_ids(selected, allow_dev_dreams)[k], allow_dev_dreams),
    decreases selected.len(),
{
    if selected.len() > 0 {
        let front = eligible_ids(selected.drop_last(), allow_dev_dreams);
        if k < front.len() {
            lemma_eligible_ids(selected.drop_last(), allow_dev_dreams, k);
        }
    }
}

/// Why the program cannot start to show dreams.
#[derive(PartialEq, Eq, Debug, Clone, Copy, Structural)]
pub enum StartupError {
    /// None of the selected dreams can be shown.
    NoEligibleDream,
}

/// Calls `rand::thread_rng()` and `Rng::gen_range` with the range from 0
/// up to `len`, `len` left out. The generator is seeded by the system, so
/// nothing is claimed of the index but that it lies in the range. An empty
/// range is left out: `gen_range` panics on it. Where the system cannot
/// seed the generator, `thread_rng` panics whatever the range is.
#[verifier::external_body]
fn random_index(len: usize) -> (index: usize)
    requires
        len > 0,
    ensures
        index < len,
{
    rand::thread_rng().gen_range(0..len)
}

/// The state of the show: the active dream, the displays, and whether the
/// first frame is still to come.
#[derive(Debug)]
pub struct DreamSpinner {
    first_frame: bool,
    dream: ADream,
    displays: DisplayTopology,
    fps_measurement: FPSMeasureData,
}

impl DreamSpinner {
    /// Whether no frame was shown yet.
    pub closed spec fn is_first_frame(&self) -> bool {
        self.first_frame
    }

    /// The dream that is shown.
    pub closed spec fn active_dream(&self) -> ADream {
        self.dream
    }

    /// The displays in their roles.
    pub closed spec fn topology(&self) -> TopologyView {
        self.displays@
    }

    /// The frame-rate monitor.
    pub closed spec fn monitor(&self) -> FpsView {
        self.fps_measurement@
    }

    /// The batch of the frame-rate monitor is not full.
    pub closed spec fn wf(&self) -> bool {
        self.fps_measurement.wf()
    }

    /// The selected dreams that can be shown, in the order of strings.
    pub fn eligible_dreams(settings: &SettingsRaw) -> (ids: Vec<String>)
        requires
            settings.wf(),
        ensures
            texts(ids@) == eligible_ids(
                settings@.selected_dreams,
                settings@.allow_dev_dreams,
            ),
    {
        let selected = settings.selected_dreams();
        let allow_dev_dreams = settings.allow_dev_dreams();
        let ghost all = settings@.selected_dreams;
        let mut ids: Vec<String> = Vec::new();
        let mut i: usize = 0;
        let n = selected.len();
        while i < n
            invariant
                i <= n,
                n == all.len(),
                all == selected@,
                texts(ids@) == eligible_ids(all.take(i as int), allow_dev_dreams),
            decreases n - i,
        {
            let id = selected.get(i);
            proof {
                assert(all.take(i + 1).drop_last() =~= all.take(i as int));
            }
            let eligible = match find_dream(id.as_str()) {
                Some(place) => allow_dev_dreams || place != 1,
                None => false,
            };
            if eligible {
                ids.push(id.clone());
            }
            i += 1;
        }
        assert(all.take(i as int) =~= all);
        ids
    }

    /// Creates and prepares the dream at place `choice` among the
    /// selected dreams that can be shown.
    pub fn pick_active_dream(settings: &SettingsRaw, choice: usize) -> (dream: ADream)
        requires
            settings.wf(),
            choice < eligible_ids(settings@.selected_dreams, settings@.allow_dev_dreams).len(),
        ensures
            dream.id_text() == eligible_ids(
                settings@.selected_dreams,
                settings@.allow_dev_dreams,
            )[choice as int],
            dream.settings_text() == stored_text(settings@, dream.id_text()),
            dream is FractalClock ==> dream.scheme() == Some(settings@.color_scheme),
    {
        let ids = DreamSpinner::eligible_dreams(settings);
        proof {
            lemma_eligible_ids(
                settings@.selected_dreams,
                settings@.allow_dev_dreams,
                choice as int,
            );
        }
        let mut dream = build_dream_by_id(ids[choice].as_str(), settings);
        dream.prepare();
        proof {
            lemma_catalog_ids_differ();
        }
        dream
    }

    /// Chooses at random one of the selected dreams that can be shown,
    /// creates it and prepares it. Selected dreams that the catalog does
    /// not know, or that are not offered, are passed over. Fails where
    /// none is left.
    pub fn select_active_dream(settings: &SettingsRaw) -> (dream: Result<ADream, StartupError>)
        requires
            settings.wf(),
        ensures
            eligible_ids(settings@.selected_dreams, settings@.allow_dev_dreams).len() == 0 ==> dream
                is Err && dream->Err_0 == StartupError::NoEligibleDream,
            eligible_ids(settings@.selected_dreams, settings@.allow_dev_dreams).len() > 0 ==> dream
                is Ok && eligible_ids(
                settings@.selected_dreams,
                settings@.allow_dev_dreams,
            ).contains(dream->Ok_0.id_text()) && settings@.selected_dreams.contains(
                dream->Ok_0.id_text(),
            ) && is_eligible(dream->Ok_0.id_text(), settings@.allow_dev_dreams)
                && dream->Ok_0.settings_text() == stored_text(settings@, dream->Ok_0.id_text())
                && (dream->Ok_0 is FractalClock ==> dream->Ok_0.scheme() == Some(
                settings@.color_scheme,
            )),
    {
        let count = DreamSpinner::eligible_dreams(settings).len();
        if count == 0 {
            return Err(StartupError::NoEligibleDream);
        }
        let choice = random_index(count);
        proof {
            lemma_eligible_ids(
                settings@.selected_dreams,
                settings@.allow_dev_dreams,
                choice as int,
            );
        }
        Ok(DreamSpinner::pick_active_dream(settings, choice))
    }

    /// Starts the show of `dream` on the given displays.
    pub fn with_dream(displays: DisplayTopology, dream: ADream) -> (spinner: DreamSpinner)
        ensures
            spinner.wf(),
            spinner.is_first_frame(),
            spinner.active_dream() == dream,
            spinner.topology() == displays@,
            spinner.monitor() == fresh_monitor(),
    {
        DreamSpinner {
            first_frame: true,
            dream,
            displays,
            fps_measurement: FPSMeasureData::new(),
        }
    }

    /// Called once before the first frame, with the displays that were
    /// detected: puts the displays in their roles and chooses the dream to
    /// show. The displays must be usable: there is at least one, and one
    /// of them is marked primary. `find_primary` tells whether they are.
    /// Fails where none of the selected dreams can be shown.
    pub fn new(displays: Vec<DisplaySurface>, settings: &SettingsRaw) -> (spinner: Result<
        DreamSpinner,
        StartupError,
    >)
        requires
            settings.wf(),
            topology_of(surfaces(displays@), settings@.attempt_multiscreen) is Ok,
        ensures
            eligible_ids(settings@.selected_dreams, settings@.allow_dev_dreams).len() == 0
                ==> spinner is Err && spinner->Err_0 == StartupError::NoEligibleDream,
            eligible_ids(settings@.selected_dreams, settings@.allow_dev_dreams).len() > 0 ==> {
                &&& spinner is Ok
                &&& spinner->Ok_0.wf()
                &&& spinner->Ok_0.is_first_frame()
                &&& spinner->Ok_0.topology() == topology_of(
                    surfaces(displays@),
                    settings@.attempt_multiscreen,
                )->Ok_0
                &&& spinner->Ok_0.monitor() == fresh_monitor()
                &&& eligible_ids(
                    settings@.selected_dreams,
                    settings@.allow_dev_dreams,
                ).contains(spinner->Ok_0.active_dream().id_text())
                &&& spinner->Ok_0.active_dream().settings_text() == stored_text(
                    settings@,
                    spinner->Ok_0.active_dream().id_text(),
                )
                &&& spinner->Ok_0.active_dream() is FractalClock
                    ==> spinner->Ok_0.active_dream().scheme() == Some(settings@.color_scheme)
            },
    {
        let topology = match resolve_topology(displays, settings.attempt_multiscreen()) {
            Ok(t) => t,
            Err(_) => unreached(),
        };
        let dream = match DreamSpinner::select_active_dream(settings) {
            Ok(d) => d,
            Err(e) => {
                return Err(e);
            },
        };
        Ok(DreamSpinner::with_dream(topology, dream))
    }

    /// The dream that is shown.
    pub fn dream(&self) -> (dream: &ADream)
        ensures
            *dream == self.active_dream(),
    {
        &self.dream
    }

    /// The displays in their roles.
    pub fn displays(&self) -> (displays: &DisplayTopology)
        ensures
            displays@ == self.topology(),
    {
        &self.displays
    }

    /// The frame-rate monitor.
    pub fn fps_measurement(&self) -> (monitor: &FPSMeasureData)
        ensures
            monitor@ == self.monitor(),
    {
        &self.fps_measurement
    }

    /// Every viewport there is: the primary one, then those of the
    /// secondary displays.
    pub fn known_viewports(&self) -> (viewports: Vec<ViewportTarget>)
        ensures
            viewports@ == all_viewports(self.topology().secondary),
    {
        let identities = self.displays.viewport_identities();
        let mut viewports: Vec<ViewportTarget> = Vec::new();
        viewports.push(ViewportTarget::Primary);
        let mut i: usize = 0;
        while i < identities.len()
            invariant
                i <= identities.len(),
                viewports.len() == i + 1,
                viewports@[0] == ViewportTarget::Primary,
                forall|k: int|
                    0 <= k < i ==> #[trigger] viewports@[k + 1] == ViewportTarget::Secondary(
                        identities@[k],
                    ),
            decreases identities.len() - i,
        {
            viewports.push(ViewportTarget::Secondary(identities[i]));
            i += 1;
        }
        proof {
            let want = all_viewports(self.topology().secondary);
            assert forall|k: int| 0 <= k < want.len() implies viewports@[k] == want[k] by {
                if k > 0 {
                    assert(viewports@[(k - 1) + 1] == ViewportTarget::Secondary(identities@[k - 1]));
                }
            }
        }
        viewports
    }

    /// Plans a frame that is drawn at `now`, a time in nanoseconds. In
    /// the first frame, and only then, the primary viewport is moved to
    /// its display and made to cover it. In every frame each secondary
    /// display gets its viewport, in the mode of the settings, and the
    /// frame rate is measured if it is shown.
    pub fn update(&mut self, settings: &SettingsRaw, now: u64) -> (plan: FramePlan)
        requires
            old(self).wf(),
        ensures
            final(self).wf(),
            !final(self).is_first_frame(),
            final(self).active_dream() == old(self).active_dream(),
            final(self).topology() == old(self).topology(),
            plan.primary_commands@ == if old(self).is_first_frame() {
                first_frame_commands(old(self).topology().primary)
            } else {
                Seq::empty()
            },
            plan.secondary@ == secondary_viewports(
                old(self).topology().secondary,
                settings@.viewport_mode,
            ),
            plan.show_fps == settings@.show_fps,
            final(self).monitor() == if settings@.show_fps {
                recorded(old(self).monitor(), now)
            } else {
                old(self).monitor()
            },
    {
        let mut primary_commands: Vec<ViewportCommand> = Vec::new();
        if self.first_frame {
            self.first_frame = false;
            let primary = self.displays.primary();
            primary_commands.push(
                ViewportCommand::OuterPosition {
                    x: primary.x,
                    y: primary.y,
                    scale_bits: primary.scale_bits,
                },
            );
            primary_commands.push(ViewportCommand::Fullscreen(true));
        }
        let mode = settings.viewport_mode();
        let mut secondary: Vec<SecondaryViewport> = Vec::new();
        let n = self.displays.secondary_len();
        let mut i: usize = 0;
        while i < n
            invariant
                i <= n,
                n == self.displays@.secondary.len(),
                secondary.len() == i,
                forall|k: int|
                    0 <= k < i ==> #[trigger] secondary@[k] == secondary_viewports(
                        self.displays@.secondary,
                        mode,
                    )[k],
            decreases n - i,
        {
            let display = self.displays.secondary(i);
            secondary.push(
                SecondaryViewport {
                    identity: self.displays.viewport_identity(i),
                    x: display.x,
                    y: display.y,
                    scale_bits: display.scale_bits,
                    mode,
                },
            );
            i += 1;
        }
        let show_fps = settings.show_fps();
        if show_fps {
            self.fps_measurement.record_timestamp(now);
        }
        FramePlan { primary_commands, secondary, show_fps }
    }

    /// Decides for every viewport when it is painted again.
    pub fn repaint_requests(&self, settings: &SettingsRaw) -> (requests: Vec<
        (ViewportTarget, RepaintRequest),
    >)
        ensures
            requests@ == repaints_for(
                settings@.viewport_mode,
                match self.active_dream() {
                    ADream::FractalClock(_) => DreamUpdateRate::Smooth,
                    ADream::Monet(_) => DreamUpdateRate::Fixed(500_000_000),
                    ADream::SolidColor(_) => DreamUpdateRate::Fixed(5_000_000_000),
                },
                all_viewports(self.topology().secondary),
            ),
    {
        let viewports = self.known_viewports();
        let mode = settings.viewport_mode();
        let rate = self.dream.preferred_update_rate();
        let mut requests: Vec<(ViewportTarget, RepaintRequest)> = Vec::new();
        let mut i: usize = 0;
        while i < viewports.len()
            invariant
                i <= viewports.len(),
                requests.len() == i,
                forall|k: int|
                    0 <= k < i ==> #[trigger] requests@[k] == (
                        viewports@[k],
                        repaint_for(mode, viewports@[k] == ViewportTarget::Primary, rate),
                    ),
            decreases viewports.len() - i,
        {
            let is_primary_viewport = match viewports[i] {
                ViewportTarget::Primary => true,
                ViewportTarget::Secondary(_) => false,
            };
            requests.push((viewports[i], request_updates(mode, is_primary_viewport, rate)));
            i += 1;
        }
        requests
    }

    /// Decides what follows the painting of one surface with the active
    /// dream: whom to close, and when the surface is painted again. The
    /// rate that the dream prefers is asked for anew every time.
    pub fn after_paint(
        &self,
        settings: &SettingsRaw,
        is_primary_viewport: bool,
        pointer_released: bool,
    ) -> (outcome: (Vec<(ViewportTarget, ViewportCommand)>, RepaintRequest))
        ensures
            outcome.0@ == commands_after_input(
                pointer_released,
                all_viewports(self.topology().secondary),
            ),
            outcome.1 == repaint_for(
                settings@.viewport_mode,
                is_primary_viewport,
                match self.active_dream() {
                    ADream::FractalClock(_) => DreamUpdateRate::Smooth,
                    ADream::Monet(_) => DreamUpdateRate::Fixed(500_000_000),
                    ADream::SolidColor(_) => DreamUpdateRate::Fixed(5_000_000_000),
                },
            ),
    {
        let viewports = self.known_viewports();
        let commands = DreamSpinner::set_input(pointer_released, &viewports);
        let request = request_updates(
            settings.viewport_mode(),
            is_primary_viewport,
            self.dream.preferred_update_rate(),
        );
        (commands, request)
    }

    /// Decides what happens after a surface was painted and its input was
    /// looked at: once the pointer was released on it, every viewport is
    /// closed, the primary one and all secondary ones.
    pub fn set_input(pointer_released: bool, viewports: &Vec<ViewportTarget>) -> (commands: Vec<
        (ViewportTarget, ViewportCommand),
    >)
        ensures
            commands@ == commands_after_input(pointer_released, viewports@),
    {
        let mut commands: Vec<(ViewportTarget, ViewportCommand)> = Vec::new();
        if pointer_released {
            let mut i: usize = 0;
            while i < viewports.len()
                invariant
                    i <= viewports.len(),
                    commands.len() == i,
                    forall|k: int|
                        0 <= k < i ==> #[trigger] commands@[k] == (
                            viewports@[k],
                            ViewportCommand::Close,
                        ),
                decreases viewports.len() - i,
            {
                commands.push((viewports[i], ViewportCommand::Close));
                i += 1;
            }
        }
        commands
    }
}

} // verus!
