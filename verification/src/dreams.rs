//! The dreams: what each of them has to offer, and the closed catalog of
//! those that exist.

use crate::app_settings::{SettingsRaw, SettingsView};
use crate::color_scheme::ColorSchemeView;
use crate::ordered::strictly_increasing;
use crate::text::{rank, text_before, Rank};
use vstd::prelude::*;
use vstd::utf8::*;

pub mod dendraclock;
pub mod monet;
pub mod solid_color;

verus! {

/// The kind of window that a dream draws in.
#[derive(PartialEq, Eq, Debug, Clone, Copy, Structural)]
pub enum DreamType {
    Egui,
}

/// How often a dream wants to redraw.
#[derive(PartialEq, Eq, Debug, Clone, Copy, Structural)]
pub enum DreamUpdateRate {
    /// As often as the display refreshes.
    Smooth,
    /// After the given number of nanoseconds, which is not zero.
    Fixed(u64),
}

impl DreamUpdateRate {
    /// A fixed rate waits for some time.
    pub open spec fn wf(self) -> bool {
        self matches DreamUpdateRate::Fixed(nanos) ==> nanos > 0
    }
}

/// What the dream `id` finds stored for it: its text, or the empty text.
pub open spec fn stored_text(settings: SettingsView, id: Seq<char>) -> Seq<char> {
    if settings.dream_settings.dom().contains(id) {
        settings.dream_settings[id]
    } else {
        Seq::empty()
    }
}

/// The settings after the dream `id` stored `text`.
pub open spec fn settings_after_store(settings: SettingsView, id: Seq<char>, text: Seq<char>)
    -> SettingsView {
    SettingsView { dream_settings: settings.dream_settings.insert(id, text), ..settings }
}

/// What every dream offers. Drawing and the configuration panel are built
/// on top of this by the program that owns the windows.
pub trait Dream: Sized {
    /// The identifier of the dream: lower case with underscores.
    spec fn id_text(&self) -> Seq<char>;

    /// The editable state of the dream, as the text in which it is stored.
    spec fn settings_text(&self) -> Seq<char>;

    /// Creates the dream from what it stored in the settings.
    fn new(settings: &SettingsRaw) -> (dream: Self)
        requires
            settings.wf(),
        ensures
            dream.settings_text() == stored_text(settings@, dream.id_text()),
    ;

    /// The unique identifier of the dream.
    fn id(&self) -> (id: &'static str)
        ensures
            id@ == self.id_text(),
    ;

    /// The name to display, unique as well.
    fn name(&self) -> (name: &'static str)
    ;

    /// Prepares the dream for rendering. May be called again at any time.
    fn prepare(&mut self)
        ensures
            final(self).id_text() == old(self).id_text(),
            final(self).settings_text() == old(self).settings_text(),
    ;

    /// Whether preparing takes long enough to warrant a loading screen.
    fn needs_loading(&self) -> (needed: bool)
    ;

    /// Whether the dream is still in development and hidden from users.
    fn in_development(&self) -> (hidden: bool)
    ;

    /// How often the dream wants to redraw. May change from call to call.
    fn preferred_update_rate(&self) -> (rate: DreamUpdateRate)
        ensures
            rate.wf(),
    ;

    /// The kind of window to prepare for the dream.
    fn get_type(&self) -> (kind: DreamType)
    ;

    /// Whether the dream can draw itself. Asking one that cannot to draw
    /// is a programming error.
    fn can_render(&self) -> (able: bool)
    ;

    /// The editable state of the dream, as text.
    fn settings(&self) -> (text: &String)
        ensures
            text@ == self.settings_text(),
    ;

    /// Replaces the editable state. Needs exclusive access to the dream.
    fn configure(&mut self, text: String)
        ensures
            final(self).id_text() == old(self).id_text(),
            final(self).settings_text() == text@,
    ;

    /// Stores the editable state in the settings, under the dream's id.
    fn store(&self, settings: &mut SettingsRaw)
        requires
            old(settings).wf(),
        ensures
            final(settings).wf(),
            final(settings)@ == settings_after_store(
                old(settings)@,
                self.id_text(),
                self.settings_text(),
            ),
    ;
}

/// A dream that stores its state and is then created anew finds that
/// state again.
pub proof fn lemma_store_then_new(settings: SettingsView, id: Seq<char>, text: Seq<char>)
    ensures
        stored_text(settings_after_store(settings, id, text), id) == text,
{
}

/// What one dream stores leaves what the others stored as it was.
pub proof fn lemma_store_keeps_others(
    settings: SettingsView,
    id: Seq<char>,
    text: Seq<char>,
    other: Seq<char>,
)
    requires
        other != id,
    ensures
        stored_text(settings_after_store(settings, id, text), other) == stored_text(
            settings,
            other,
        ),
{
}

/// The identifiers of the dreams that exist, in the order of strings.
pub open spec fn catalog_ids() -> Seq<Seq<char>> {
    seq![dendraclock::DREAM_ID@, monet::DREAM_ID@, solid_color::DREAM_ID@]
}

/// The names of the dreams that exist, each at the place of its identifier.
pub open spec fn catalog_names() -> Seq<Seq<char>> {
    seq![dendraclock::DREAM_NAME@, monet::DREAM_NAME@, solid_color::DREAM_NAME@]
}

/// Whether the dream at place `index` of the catalog is still in
/// development.
pub open spec fn catalog_in_development(index: int) -> bool {
    index == 1
}

/// The place of `id` in the catalog, if it is the id of a dream.
pub open spec fn catalog_index(id: Seq<char>) -> Option<int> {
    if id == dendraclock::DREAM_ID@ {
        Some(0)
    } else if id == monet::DREAM_ID@ {
        Some(1)
    } else if id == solid_color::DREAM_ID@ {
        Some(2)
    } else {
        None
    }
}

/// Whether `c` may stand in an identifier: a small letter or an underscore.
pub open spec fn is_id_char(c: char) -> bool {
    ('a' <= c <= 'z') || c == '_'
}

/// The catalog holds three dreams. Their identifiers differ from each
/// other and are written in small letters and underscores, and their
/// names differ from each other.
pub proof fn lemma_catalog_ids_differ()
    ensures
        catalog_ids().len() == 3,
        catalog_names().len() == 3,
        catalog_ids().no_duplicates(),
        catalog_names().no_duplicates(),
        forall|i: int| 0 <= i < 3 ==> catalog_index(#[trigger] catalog_ids()[i]) == Some(i),
        forall|i: int, k: int|
            0 <= i < 3 && 0 <= k < catalog_ids()[i].len() ==> is_id_char(
                #[trigger] catalog_ids()[i][k],
            ),
{
    reveal_strlit("fractal_clock");
    reveal_strlit("monet");
    reveal_strlit("solid_color");
    reveal_strlit("Fractal Clock");
    reveal_strlit("Monet");
    reveal_strlit("Solid Color");
    let a = dendraclock::DREAM_ID@;
    let b = monet::DREAM_ID@;
    let c = solid_color::DREAM_ID@;
    assert(a.len() == 13 && b.len() == 5 && c.len() == 11);
    assert(dendraclock::DREAM_NAME@.len() == 13 && monet::DREAM_NAME@.len() == 5
        && solid_color::DREAM_NAME@.len() == 11);
    assert forall|i: int, k: int| 0 <= i < 3 && 0 <= k < catalog_ids()[i].len() implies is_id_char(
        #[trigger] catalog_ids()[i][k],
    ) by {}
}

/// The catalog is held in the order of its identifiers.
pub proof fn lemma_catalog_in_order()
    ensures
        strictly_increasing(catalog_ids()),
{
    reveal_strlit("fractal_clock");
    reveal_strlit("monet");
    reveal_strlit("solid_color");
    let a = dendraclock::DREAM_ID@;
    let b = monet::DREAM_ID@;
    let c = solid_color::DREAM_ID@;
    lemma_catalog_ids_differ();
    assert(is_ascii_chars(a) && is_ascii_chars(b) && is_ascii_chars(c)) by {
        assert forall|i: int| 0 <= i < a.len() implies (a[i] as nat) < 128 by {}
        assert forall|i: int| 0 <= i < b.len() implies (b[i] as nat) < 128 by {}
        assert forall|i: int| 0 <= i < c.len() implies (c[i] as nat) < 128 by {}
    }
    is_ascii_chars_encode_utf8(a);
    is_ascii_chars_encode_utf8(b);
    is_ascii_chars_encode_utf8(c);
    assert(encode_utf8(a)[0] == 0x66 && encode_utf8(b)[0] == 0x6d && encode_utf8(c)[0] == 0x73);
    assert(text_before(a, b) && text_before(b, c) && text_before(a, c));
}

/// Lists every dream: its identifier and its name, in the order of the
/// identifiers.
pub fn build_dreams_id_list() -> (zoo: Vec<(&'static str, &'static str)>)
    ensures
        zoo@.len() == 3,
        forall|i: int|
            0 <= i < 3 ==> (#[trigger] zoo@[i]).0@ == catalog_ids()[i] && zoo@[i].1@
                == catalog_names()[i],
        forall|i: int, j: int|
            0 <= i < j < 3 ==> text_before((#[trigger] zoo@[i]).0@, (#[trigger] zoo@[j]).0@),
{
    proof {
        lemma_catalog_in_order();
    }
    let mut zoo: Vec<(&'static str, &'static str)> = Vec::new();
    zoo.push((dendraclock::DREAM_ID, dendraclock::DREAM_NAME));
    zoo.push((monet::DREAM_ID, monet::DREAM_NAME));
    zoo.push((solid_color::DREAM_ID, solid_color::DREAM_NAME));
    zoo
}

/// One of the dreams that exist.
#[derive(Debug)]
pub enum ADream {
    FractalClock(dendraclock::DendraClockDream),
    Monet(monet::MonetDream),
    SolidColor(solid_color::SolidColorDream),
}

impl ADream {
    /// The place of the dream in the catalog.
    pub open spec fn index(&self) -> int {
        match self {
            ADream::FractalClock(_) => 0,
            ADream::Monet(_) => 1,
            ADream::SolidColor(_) => 2,
        }
    }

    /// The identifier of the dream.
    pub open spec fn id_text(&self) -> Seq<char> {
        catalog_ids()[self.index()]
    }

    /// The editable state of the dream, as the text in which it is stored.
    pub open spec fn settings_text(&self) -> Seq<char> {
        match self {
            ADream::FractalClock(d) => d.settings_text(),
            ADream::Monet(d) => d.settings_text(),
            ADream::SolidColor(d) => d.settings_text(),
        }
    }

    /// The color scheme that the dream paints with, if it uses one.
    pub open spec fn scheme(&self) -> Option<ColorSchemeView> {
        match self {
            ADream::FractalClock(d) => Some(d.scheme()),
            _ => None,
        }
    }

    pub fn id(&self) -> (id: &'static str)
        ensures
            id@ == self.id_text(),
    {
        match self {
            ADream::FractalClock(d) => d.id(),
            ADream::Monet(d) => d.id(),
            ADream::SolidColor(d) => d.id(),
        }
    }

    pub fn name(&self) -> (name: &'static str)
        ensures
            name@ == catalog_names()[self.index()],
    {
        match self {
            ADream::FractalClock(d) => d.name(),
            ADream::Monet(d) => d.name(),
            ADream::SolidColor(d) => d.name(),
        }
    }

    pub fn in_development(&self) -> (hidden: bool)
        ensures
            hidden == catalog_in_development(self.index()),
    {
        match self {
            ADream::FractalClock(d) => d.in_development(),
            ADream::Monet(d) => d.in_development(),
            ADream::SolidColor(d) => d.in_development(),
        }
    }

    pub fn needs_loading(&self) -> (needed: bool)
        ensures
            !needed,
    {
        match self {
            ADream::FractalClock(d) => d.needs_loading(),
            ADream::Monet(d) => d.needs_loading(),
            ADream::SolidColor(d) => d.needs_loading(),
        }
    }

    pub fn get_type(&self) -> (kind: DreamType)
        ensures
            kind == DreamType::Egui,
    {
        match self {
            ADream::FractalClock(d) => d.get_type(),
            ADream::Monet(d) => d.get_type(),
            ADream::SolidColor(d) => d.get_type(),
        }
    }

    /// Whether the dream can draw itself: all but the one in development.
    pub fn can_render(&self) -> (able: bool)
        ensures
            able == (self.index() != 1),
    {
        match self {
            ADream::FractalClock(d) => d.can_render(),
            ADream::Monet(d) => d.can_render(),
            ADream::SolidColor(d) => d.can_render(),
        }
    }

    /// The rate at which the dream wants to redraw: the clock smoothly,
    /// the dream in development every half second, the solid color every
    /// five seconds.
    pub fn preferred_update_rate(&self) -> (rate: DreamUpdateRate)
        ensures
            rate.wf(),
            rate == match self {
                ADream::FractalClock(_) => DreamUpdateRate::Smooth,
                ADream::Monet(_) => DreamUpdateRate::Fixed(500_000_000),
                ADream::SolidColor(_) => DreamUpdateRate::Fixed(5_000_000_000),
            },
    {
        match self {
            ADream::FractalClock(d) => d.preferred_update_rate(),
            ADream::Monet(d) => d.preferred_update_rate(),
            ADream::SolidColor(d) => d.preferred_update_rate(),
        }
    }

    /// Prepares the dream for rendering.
    pub fn prepare(&mut self)
        ensures
            final(self).index() == old(self).index(),
            final(self).settings_text() == old(self).settings_text(),
            final(self).scheme() == old(self).scheme(),
    {
        match self {
            ADream::FractalClock(d) => d.prepare(),
            ADream::Monet(d) => d.prepare(),
            ADream::SolidColor(d) => d.prepare(),
        }
    }

    /// The editable state of the dream, as text.
    pub fn settings(&self) -> (text: &String)
        ensures
            text@ == self.settings_text(),
    {
        match self {
            ADream::FractalClock(d) => d.settings(),
            ADream::Monet(d) => d.settings(),
            ADream::SolidColor(d) => d.settings(),
        }
    }

    /// Replaces the editable state of the dream.
    pub fn configure(&mut self, text: String)
        ensures
            final(self).index() == old(self).index(),
            final(self).settings_text() == text@,
            final(self).scheme() == old(self).scheme(),
    {
        match self {
            ADream::FractalClock(d) => d.configure(text),
            ADream::Monet(d) => d.configure(text),
            ADream::SolidColor(d) => d.configure(text),
        }
    }

    /// Stores the editable state in the settings, under the dream's id.
    pub fn store(&self, settings: &mut SettingsRaw)
        requires
            old(settings).wf(),
        ensures
            final(settings).wf(),
            final(settings)@ == settings_after_store(
                old(settings)@,
                self.id_text(),
                self.settings_text(),
            ),
    {
        match self {
            ADream::FractalClock(d) => d.store(settings),
            ADream::Monet(d) => d.store(settings),
            ADream::SolidColor(d) => d.store(settings),
        }
    }
}

/// The place of `id` in the catalog, if it is the id of a dream.
pub fn find_dream(id: &str) -> (place: Option<usize>)
    ensures
        match place {
            Some(i) => catalog_index(id@) == Some(i as int),
            None => catalog_index(id@) is None,
        },
{
    if let Rank::Same = rank(id, dendraclock::DREAM_ID) {
        Some(0)
    } else if let Rank::Same = rank(id, monet::DREAM_ID) {
        Some(1)
    } else if let Rank::Same = rank(id, solid_color::DREAM_ID) {
        Some(2)
    } else {
        None
    }
}

/// Creates the dream `id` from what it stored in the settings. The id
/// must be one of the catalog: the catalog is closed.
pub fn build_dream_by_id(id: &str, settings: &SettingsRaw) -> (dream: ADream)
    requires
        settings.wf(),
        catalog_index(id@) is Some,
    ensures
        Some(dream.index()) == catalog_index(id@),
        dream.id_text() == id@,
        dream.settings_text() == stored_text(settings@, id@),
        dream is FractalClock ==> dream.scheme() == Some(settings@.color_scheme),
{
    proof {
        lemma_catalog_ids_differ();
    }
    match find_dream(id) {
        Some(0) => ADream::FractalClock(dendraclock::DendraClockDream::new(settings)),
        Some(1) => ADream::Monet(monet::MonetDream::new(settings)),
        _ => ADream::SolidColor(solid_color::SolidColorDream::new(settings)),
    }
}

} // verus!
