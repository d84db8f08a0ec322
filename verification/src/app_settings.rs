//! The persistent settings of the application and the rules that keep
//! them valid.

use crate::color_scheme::{default_scheme, ColorScheme, ColorSchemeView};
use crate::ordered::{lemma_increasing_len, BlobMap, IdSet};
use vstd::prelude::*;

verus! {

/// The name of the settings file.
pub const SETTINGS_FILE_NAME: &'static str = "dream_settings.toml";

/// How the viewports of secondary displays are shown. Has no meaning
/// when there is only one display.
#[derive(PartialEq, Eq, Debug, Clone, Copy, Structural)]
pub enum ViewportMode {
    /// All displays are filled in one draw call.
    Immediate,
    /// Every display is filled by a draw call of its own.
    Deferred,
}

impl ViewportMode {
    /// The name of the mode, as the settings window shows it.
    pub fn to_string(&self) -> (name: String)
        ensures
            name@ == match *self {
                ViewportMode::Immediate => "Immediate"@,
                ViewportMode::Deferred => "Deferred"@,
            },
    {
        match self {
            ViewportMode::Immediate => String::from_str("Immediate"),
            ViewportMode::Deferred => String::from_str("Deferred"),
        }
    }
}

impl Default for ViewportMode {
    fn default() -> (mode: ViewportMode)
        ensures
            mode == ViewportMode::Immediate,
    {
        ViewportMode::Immediate
    }
}

/// Where the settings file is.
#[derive(PartialEq, Eq, Debug, Clone, Copy, Structural)]
pub enum SettingsLocation {
    /// Beside the running executable.
    BesideExecutable,
    /// In the user's configuration directory, where it already exists.
    UserDirectory,
    /// In the user's configuration directory, where it has to be created.
    NewInUserDirectory,
}

/// Why no settings file can be had.
#[derive(PartialEq, Eq, Debug, Clone, Copy, Structural)]
pub enum SettingsError {
    /// The user's configuration directory cannot be determined.
    NoUserDirectory,
    /// No dream is selected.
    EmptySelection,
}

impl SettingsError {
    /// A sentence for the log.
    pub fn message(&self) -> (text: &'static str)
        ensures
            text@ == match *self {
                SettingsError::NoUserDirectory => "Can not detect settings directory in user folder"@,
                SettingsError::EmptySelection => "No dream is selected"@,
            },
    {
        match self {
            SettingsError::NoUserDirectory => "Can not detect settings directory in user folder",
            SettingsError::EmptySelection => "No dream is selected",
        }
    }
}

/// Decides where the settings file is. A file beside the executable has
/// precedence. Otherwise the file is in the user's configuration
/// directory, and is created there if it does not exist yet.
///
/// `beside_executable` says whether a settings file stands beside the
/// executable. `in_user_directory` is `None` where no configuration
/// directory can be determined for the user, and else says whether the
/// settings file exists there.
pub fn determine_settings_path(beside_executable: bool, in_user_directory: Option<bool>) -> (place:
    Result<SettingsLocation, SettingsError>)
    ensures
        place == if beside_executable {
            Ok::<SettingsLocation, SettingsError>(SettingsLocation::BesideExecutable)
        } else {
            match in_user_directory {
                None => Err(SettingsError::NoUserDirectory),
                Some(true) => Ok(SettingsLocation::UserDirectory),
                Some(false) => Ok(SettingsLocation::NewInUserDirectory),
            }
        },
{
    if beside_executable {
        return Ok(SettingsLocation::BesideExecutable);
    }
    match in_user_directory {
        None => Err(SettingsError::NoUserDirectory),
        Some(true) => Ok(SettingsLocation::UserDirectory),
        Some(false) => Ok(SettingsLocation::NewInUserDirectory),
    }
}

/// All persistent settings of the application.
#[derive(Debug)]
pub struct SettingsRaw {
    dream_settings: BlobMap,
    attempt_multiscreen: bool,
    show_fps: bool,
    selected_dreams: IdSet,
    viewport_mode: ViewportMode,
    allow_dev_dreams: bool,
    color_scheme: ColorScheme,
}

/// What the settings hold.
pub struct SettingsView {
    /// The settings of each dream, as the text that the dream stored.
    pub dream_settings: Map<Seq<char>, Seq<char>>,
    /// Whether additional displays are to be covered.
    pub attempt_multiscreen: bool,
    /// Whether the frame rate is shown on the primary display.
    pub show_fps: bool,
    /// The dreams that the user selected, in the order of strings.
    pub selected_dreams: Seq<Seq<char>>,
    /// How the viewports of secondary displays are shown.
    pub viewport_mode: ViewportMode,
    /// Whether dreams that are still in development are offered.
    pub allow_dev_dreams: bool,
    /// The color scheme that dreams should use.
    pub color_scheme: ColorSchemeView,
}

impl View for SettingsRaw {
    type V = SettingsView;

    closed spec fn view(&self) -> SettingsView {
        SettingsView {
            dream_settings: self.dream_settings@,
            attempt_multiscreen: self.attempt_multiscreen,
            show_fps: self.show_fps,
            selected_dreams: self.selected_dreams@,
            viewport_mode: self.viewport_mode,
            allow_dev_dreams: self.allow_dev_dreams,
            color_scheme: self.color_scheme@,
        }
    }
}

/// The selection after the box of `id` was found checked or unchecked: a
/// checked dream is selected; an unchecked one is deselected unless it is
/// the only one selected.
pub open spec fn selection_after(selected: Set<Seq<char>>, id: Seq<char>, active: bool) -> Set<
    Seq<char>,
> {
    if active {
        selected.insert(id)
    } else if selected.len() > 1 {
        selected.remove(id)
    } else {
        selected
    }
}

impl Default for SettingsRaw {
    /// The settings of a first start: the fractal clock alone is selected.
    fn default() -> (settings: SettingsRaw)
        ensures
            settings.wf(),
            settings@.dream_settings == Map::<Seq<char>, Seq<char>>::empty(),
            !settings@.attempt_multiscreen,
            !settings@.show_fps,
            settings@.selected_dreams == seq!["fractal_clock"@],
            settings@.viewport_mode == ViewportMode::Immediate,
            !settings@.allow_dev_dreams,
            settings@.color_scheme == default_scheme(),
    {
        let mut selected_dreams = IdSet::new();
        selected_dreams.insert("fractal_clock");
        proof {
            let s = selected_dreams@;
            assert(s.to_set().contains("fractal_clock"@));
        }
        SettingsRaw {
            dream_settings: BlobMap::new(),
            attempt_multiscreen: false,
            show_fps: false,
            selected_dreams,
            viewport_mode: ViewportMode::Immediate,
            allow_dev_dreams: false,
            color_scheme: ColorScheme::default(),
        }
    }
}

impl SettingsRaw {
    /// The map of dream settings as it is held.
    pub closed spec fn blobs(&self) -> BlobMap {
        self.dream_settings
    }

    /// The set of selected dreams as it is held.
    pub closed spec fn selection(&self) -> IdSet {
        self.selected_dreams
    }

    /// Both collections are in order, and at least one dream is selected.
    pub open spec fn wf(&self) -> bool {
        &&& self.blobs().wf()
        &&& self.blobs()@ == self@.dream_settings
        &&& self.selection().wf()
        &&& self.selection()@ == self@.selected_dreams
        &&& self@.selected_dreams.len() >= 1
    }

    /// Puts settings together from their parts. Refuses a selection
    /// without dreams.
    pub fn from_parts(
        dream_settings: BlobMap,
        attempt_multiscreen: bool,
        show_fps: bool,
        selected_dreams: IdSet,
        viewport_mode: ViewportMode,
        allow_dev_dreams: bool,
        color_scheme: ColorScheme,
    ) -> (settings: Result<SettingsRaw, SettingsError>)
        requires
            dream_settings.wf(),
            selected_dreams.wf(),
        ensures
            selected_dreams@.len() == 0 ==> settings == Err::<SettingsRaw, SettingsError>(
                SettingsError::EmptySelection,
            ),
            selected_dreams@.len() > 0 ==> settings is Ok && settings->Ok_0.wf()
                && settings->Ok_0@ == (SettingsView {
                dream_settings: dream_settings@,
                attempt_multiscreen,
                show_fps,
                selected_dreams: selected_dreams@,
                viewport_mode,
                allow_dev_dreams,
                color_scheme: color_scheme@,
            }),
    {
        if selected_dreams.len() == 0 {
            return Err(SettingsError::EmptySelection);
        }
        Ok(
            SettingsRaw {
                dream_settings,
                attempt_multiscreen,
                show_fps,
                selected_dreams,
                viewport_mode,
                allow_dev_dreams,
                color_scheme,
            },
        )
    }

    /// Takes the settings apart: the settings of the dreams, whether
    /// additional displays are covered, whether the frame rate is shown,
    /// the selected dreams, the mode of additional viewports, whether
    /// dreams in development are offered, and the color scheme. Put
    /// together again by `from_parts` they are the same settings.
    pub fn into_parts(self) -> (parts: (
        BlobMap,
        bool,
        bool,
        IdSet,
        ViewportMode,
        bool,
        ColorScheme,
    ))
        requires
            self.wf(),
        ensures
            parts.0.wf(),
            parts.3.wf(),
            parts.3@.len() > 0,
            self@ == (SettingsView {
                dream_settings: parts.0@,
                attempt_multiscreen: parts.1,
                show_fps: parts.2,
                selected_dreams: parts.3@,
                viewport_mode: parts.4,
                allow_dev_dreams: parts.5,
                color_scheme: parts.6@,
            }),
    {
        (
            self.dream_settings,
            self.attempt_multiscreen,
            self.show_fps,
            self.selected_dreams,
            self.viewport_mode,
            self.allow_dev_dreams,
            self.color_scheme,
        )
    }

    /// The settings of each dream.
    pub fn dream_settings(&self) -> (map: &BlobMap)
        ensures
            *map == self.blobs(),
    {
        &self.dream_settings
    }

    /// The dreams that the user selected.
    pub fn selected_dreams(&self) -> (set: &IdSet)
        ensures
            *set == self.selection(),
    {
        &self.selected_dreams
    }

    pub fn attempt_multiscreen(&self) -> (on: bool)
        ensures
            on == self@.attempt_multiscreen,
    {
        self.attempt_multiscreen
    }

    pub fn show_fps(&self) -> (on: bool)
        ensures
            on == self@.show_fps,
    {
        self.show_fps
    }

    pub fn viewport_mode(&self) -> (mode: ViewportMode)
        ensures
            mode == self@.viewport_mode,
    {
        self.viewport_mode
    }

    pub fn allow_dev_dreams(&self) -> (on: bool)
        ensures
            on == self@.allow_dev_dreams,
    {
        self.allow_dev_dreams
    }

    pub fn color_scheme(&self) -> (scheme: &ColorScheme)
        ensures
            scheme@ == self@.color_scheme,
    {
        &self.color_scheme
    }

    pub fn set_attempt_multiscreen(&mut self, on: bool)
        ensures
            final(self)@ == (SettingsView { attempt_multiscreen: on, ..old(self)@ }),
            final(self).blobs() == old(self).blobs(),
            final(self).selection() == old(self).selection(),
    {
        self.attempt_multiscreen = on;
    }

    pub fn set_show_fps(&mut self, on: bool)
        ensures
            final(self)@ == (SettingsView { show_fps: on, ..old(self)@ }),
            final(self).blobs() == old(self).blobs(),
            final(self).selection() == old(self).selection(),
    {
        self.show_fps = on;
    }

    pub fn set_viewport_mode(&mut self, mode: ViewportMode)
        ensures
            final(self)@ == (SettingsView { viewport_mode: mode, ..old(self)@ }),
            final(self).blobs() == old(self).blobs(),
            final(self).selection() == old(self).selection(),
    {
        self.viewport_mode = mode;
    }

    pub fn set_allow_dev_dreams(&mut self, on: bool)
        ensures
            final(self)@ == (SettingsView { allow_dev_dreams: on, ..old(self)@ }),
            final(self).blobs() == old(self).blobs(),
            final(self).selection() == old(self).selection(),
    {
        self.allow_dev_dreams = on;
    }

    pub fn set_color_scheme(&mut self, scheme: ColorScheme)
        ensures
            final(self)@ == (SettingsView { color_scheme: scheme@, ..old(self)@ }),
            final(self).blobs() == old(self).blobs(),
            final(self).selection() == old(self).selection(),
    {
        self.color_scheme = scheme;
    }

    /// Takes over the state of a dream's check box in the list of dreams.
    /// A checked dream is selected. An unchecked dream is deselected, but
    /// not if that would leave no dream selected: the selection is never
    /// empty.
    pub fn set_dream_selected(&mut self, id: &str, active: bool)
        requires
            old(self).wf(),
        ensures
            final(self).wf(),
            final(self)@.selected_dreams.to_set() == selection_after(
                old(self)@.selected_dreams.to_set(),
                id@,
                active,
            ),
            final(self)@ == (SettingsView {
                selected_dreams: final(self)@.selected_dreams,
                ..old(self)@
            }),
            !active && old(self)@.selected_dreams.len() == 1 ==> final(self)@ == old(self)@,
            final(self).blobs() == old(self).blobs(),
    {
        proof {
            lemma_increasing_len(self@.selected_dreams);
        }
        if active {
            self.selected_dreams.insert(id);
        } else if self.selected_dreams.len() > 1 {
            self.selected_dreams.remove(id);
        }
    }

    /// Stores the settings of the dream `id`, in place of what it stored
    /// before.
    pub fn store_dream_settings(&mut self, id: &str, blob: String)
        requires
            old(self).wf(),
        ensures
            final(self).wf(),
            final(self)@ == (SettingsView {
                dream_settings: old(self)@.dream_settings.insert(id@, blob@),
                ..old(self)@
            }),
            final(self).selection() == old(self).selection(),
    {
        self.dream_settings.insert(id, blob);
    }

    /// What the dream `id` stored, or the empty text if it stored nothing.
    pub fn stored_dream_settings(&self, id: &str) -> (blob: String)
        requires
            self.wf(),
        ensures
            blob@ == if self@.dream_settings.dom().contains(id@) {
                self@.dream_settings[id@]
            } else {
                Seq::<char>::empty()
            },
    {
        match self.dream_settings.get(id) {
            Some(text) => text.clone(),
            None => String::new(),
        }
    }

    /// Whether the two settings are the same in every part.
    pub fn same_as(&self, other: &SettingsRaw) -> (same: bool)
        requires
            self.wf(),
            other.wf(),
        ensures
            same == (self@ == other@),
    {
        self.dream_settings.same_as(&other.dream_settings) && self.attempt_multiscreen
            == other.attempt_multiscreen && self.show_fps == other.show_fps
            && self.selected_dreams.same_as(&other.selected_dreams) && same_mode(
            self.viewport_mode,
            other.viewport_mode,
        ) && self.allow_dev_dreams == other.allow_dev_dreams && self.color_scheme.same_as(
            &other.color_scheme,
        )
    }

    /// A copy of the settings.
    pub fn duplicate(&self) -> (copy: SettingsRaw)
        requires
            self.wf(),
        ensures
            copy.wf(),
            copy@ == self@,
    {
        SettingsRaw {
            dream_settings: self.dream_settings.duplicate(),
            attempt_multiscreen: self.attempt_multiscreen,
            show_fps: self.show_fps,
            selected_dreams: self.selected_dreams.duplicate(),
            viewport_mode: self.viewport_mode,
            allow_dev_dreams: self.allow_dev_dreams,
            color_scheme: self.color_scheme.duplicate(),
        }
    }
}

fn same_mode(a: ViewportMode, b: ViewportMode) -> (same: bool)
    ensures
        same == (a == b),
{
    match (a, b) {
        (ViewportMode::Immediate, ViewportMode::Immediate) => true,
        (ViewportMode::Deferred, ViewportMode::Deferred) => true,
        _ => false,
    }
}

/// However the check boxes are set, at least one dream stays selected.
pub proof fn lemma_selection_never_empty(selected: Set<Seq<char>>, id: Seq<char>, active: bool)
    requires
        selected.finite(),
        selected.len() >= 1,
    ensures
        selection_after(selected, id, active).len() >= 1,
        !active && selected.len() == 1 ==> selection_after(selected, id, active) == selected,
{
}

} // verus!
