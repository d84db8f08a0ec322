//! The configuration window: what each event of its panels does to the
//! settings, and what the panels show.

use crate::app_settings::{selection_after, SettingsRaw, SettingsView, ViewportMode};
use crate::color_scheme::SchemeCatalog;
use crate::dreams::{
    catalog_ids, catalog_index, catalog_names, find_dream, lemma_catalog_ids_differ,
    settings_after_store, stored_text,
};
use crate::dreamspinner::is_eligible;
use crate::registry::{offered_places, settings_after_all_stored, DreamRegistry};
use vstd::prelude::*;

verus! {

/// What the window shows at the moment.
#[derive(Debug, PartialEq, Eq, Clone, Copy)]
pub enum ActivePanel {
    Generic,
    Select,
    ColorScheme,
    About,
    /// The settings of the dream with the given id.
    Dream(&'static str),
}

/// What the user did in the window.
#[derive(Debug)]
pub enum ConfigEvent {
    /// The close button was clicked.
    CloseClicked,
    /// The save button was clicked.
    SaveClicked,
    /// A tab was chosen.
    PanelSelected(ActivePanel),
    /// The box "Show FPS" was set.
    ShowFpsSet(bool),
    /// The box "Detect additional screens" was set.
    MultiscreenSet(bool),
    /// A mode was chosen for additional displays.
    ViewportModeSet(ViewportMode),
    /// The box of a dream in the list of dreams was found in this state.
    DreamChecked { id: String, active: bool },
    /// The row of a color scheme was pressed.
    SchemePressed(usize),
    /// The panel of the dream that is shown changed the state of the
    /// dream to the given text.
    DreamConfigured(String),
}

/// What the window has to do after an event.
#[derive(Debug, PartialEq, Eq, Clone, Copy, Structural)]
pub enum ConfigAction {
    Nothing,
    /// Close the window.
    CloseWindow,
    /// Write the settings to their file.
    WriteSettings,
}

/// The label of the row of a color scheme: its name, marked where the
/// scheme is the one in use.
pub open spec fn scheme_label(name: Seq<char>, in_use: bool) -> Seq<char> {
    if in_use {
        "*** "@ + name + " ***"@
    } else {
        name
    }
}

/// The state of the configuration window.
#[derive(Debug)]
pub struct DreamConfigApp {
    /// The tab that is chosen.
    active_panel: ActivePanel,
    /// All dreams, to show their settings.
    zoo: DreamRegistry,
    /// The settings as they were saved last. The save button is enabled
    /// while the settings differ from them.
    saved_settings: SettingsRaw,
    /// All color schemes.
    color_schemes: SchemeCatalog,
}

impl DreamConfigApp {
    pub closed spec fn panel(&self) -> ActivePanel {
        self.active_panel
    }

    pub closed spec fn dreams(&self) -> DreamRegistry {
        self.zoo
    }

    pub closed spec fn saved(&self) -> SettingsView {
        self.saved_settings@
    }

    pub closed spec fn schemes(&self) -> SchemeCatalog {
        self.color_schemes
    }

    pub closed spec fn wf(&self) -> bool {
        &&& self.zoo.wf()
        &&& self.saved_settings.wf()
        &&& self.color_schemes.wf()
    }

    /// Opens the window on the general panel, with every dream of the
    /// catalog and the settings as they are taken to be saved.
    pub fn new(settings: &SettingsRaw, color_schemes: SchemeCatalog) -> (app: DreamConfigApp)
        requires
            settings.wf(),
            color_schemes.wf(),
        ensures
            app.wf(),
            app.panel() == ActivePanel::Generic,
            app.saved() == settings@,
            app.schemes() == color_schemes,
            app.dreams().wf(),
            forall|i: int|
                0 <= i < 3 ==> (#[trigger] app.dreams()@[i]).settings_text() == stored_text(
                    settings@,
                    catalog_ids()[i],
                ),
            app.dreams()@[0].scheme() == Some(settings@.color_scheme),
    {
        DreamConfigApp {
            active_panel: ActivePanel::Generic,
            zoo: DreamRegistry::build(settings),
            saved_settings: settings.duplicate(),
            color_schemes,
        }
    }

    /// The tab that is chosen.
    pub fn active_panel(&self) -> (panel: ActivePanel)
        ensures
            panel == self.panel(),
    {
        self.active_panel
    }

    /// All dreams.
    pub fn zoo(&self) -> (zoo: &DreamRegistry)
        ensures
            *zoo == self.dreams(),
    {
        &self.zoo
    }

    /// All color schemes.
    pub fn color_schemes(&self) -> (schemes: &SchemeCatalog)
        ensures
            *schemes == self.schemes(),
    {
        &self.color_schemes
    }

    /// Whether the settings differ from what was saved last, so that
    /// saving is offered.
    pub fn have_changes(&self, settings: &SettingsRaw) -> (changed: bool)
        requires
            self.wf(),
            settings.wf(),
        ensures
            changed == (settings@ != self.saved()),
    {
        !settings.same_as(&self.saved_settings)
    }

    /// Takes the settings as saved.
    pub fn save(&mut self, settings: &SettingsRaw)
        requires
            old(self).wf(),
            settings.wf(),
        ensures
            final(self).wf(),
            final(self).saved() == settings@,
            final(self).panel() == old(self).panel(),
            final(self).dreams() == old(self).dreams(),
            final(self).schemes() == old(self).schemes(),
    {
        self.saved_settings = settings.duplicate();
    }

    /// The tabs of the dreams: the identifier and the name of every dream
    /// that is offered, in the order of the catalog.
    pub fn dream_tabs(&self, settings: &SettingsRaw) -> (tabs: Vec<(&'static str, &'static str)>)
        requires
            self.wf(),
        ensures
            tabs@.len() == offered_places(settings@.allow_dev_dreams).len(),
            forall|k: int|
                0 <= k < tabs@.len() ==> (#[trigger] tabs@[k]).0@
                    == catalog_ids()[offered_places(settings@.allow_dev_dreams)[k]] && tabs@[k].1@
                    == catalog_names()[offered_places(settings@.allow_dev_dreams)[k]],
    {
        self.zoo.offered(settings.allow_dev_dreams())
    }

    /// The list of dreams to select from: for every dream that is offered
    /// its identifier, its name, and whether it is selected.
    pub fn dream_boxes(&self, settings: &SettingsRaw) -> (boxes: Vec<
        (&'static str, &'static str, bool),
    >)
        requires
            self.wf(),
            settings.wf(),
        ensures
            boxes@.len() == offered_places(settings@.allow_dev_dreams).len(),
            forall|k: int|
                0 <= k < boxes@.len() ==> (#[trigger] boxes@[k]).0@
                    == catalog_ids()[offered_places(settings@.allow_dev_dreams)[k]] && boxes@[k].1@
                    == catalog_names()[offered_places(settings@.allow_dev_dreams)[k]] && boxes@[k].2
                    == settings@.selected_dreams.contains(boxes@[k].0@),
    {
        let tabs = self.zoo.offered(settings.allow_dev_dreams());
        let mut boxes: Vec<(&'static str, &'static str, bool)> = Vec::new();
        let mut i: usize = 0;
        while i < tabs.len()
            invariant
                i <= tabs.len(),
                settings.wf(),
                boxes.len() == i,
                forall|k: int|
                    0 <= k < i ==> (#[trigger] boxes@[k]).0@ == tabs@[k].0@ && boxes@[k].1@
                        == tabs@[k].1@ && boxes@[k].2 == settings@.selected_dreams.contains(
                        boxes@[k].0@,
                    ),
            decreases tabs.len() - i,
        {
            let (id, name) = tabs[i];
            boxes.push((id, name, settings.selected_dreams().contains(id)));
            i += 1;
        }
        boxes
    }

    /// The rows of the table of color schemes, in the order of their
    /// names: the label of each scheme, and whether it is the one in use.
    pub fn scheme_rows(&self, settings: &SettingsRaw) -> (rows: Vec<(String, bool)>)
        requires
            self.wf(),
        ensures
            rows@.len() == self.schemes().names().len(),
            forall|k: int|
                0 <= k < rows@.len() ==> (#[trigger] rows@[k]).1 == (settings@.color_scheme
                    == self.schemes().schemes()[k]) && rows@[k].0@ == scheme_label(
                    self.schemes().names()[k],
                    rows@[k].1,
                ),
    {
        let mut rows: Vec<(String, bool)> = Vec::new();
        let n = self.color_schemes.len();
        let mut i: usize = 0;
        while i < n
            invariant
                i <= n,
                self.wf(),
                n == self.schemes().names().len(),
                rows.len() == i,
                forall|k: int|
                    0 <= k < i ==> (#[trigger] rows@[k]).1 == (settings@.color_scheme
                        == self.schemes().schemes()[k]) && rows@[k].0@ == scheme_label(
                        self.schemes().names()[k],
                        rows@[k].1,
                    ),
            decreases n - i,
        {
            let scheme = self.color_schemes.scheme_at(i);
            let in_use = settings.color_scheme().same_as(scheme);
            let label = if in_use {
                let mut text = String::from_str("*** ");
                text.append(scheme.name.as_str());
                text.append(" ***");
                text
            } else {
                scheme.name.clone()
            };
            rows.push((label, in_use));
            i += 1;
        }
        rows
    }

    /// Lets every dream store its state in the settings, as is done at
    /// the end of every frame of the window.
    pub fn store_dreams(&self, settings: &mut SettingsRaw)
        requires
            self.wf(),
            old(settings).wf(),
        ensures
            final(settings).wf(),
            final(settings)@ == settings_after_all_stored(old(settings)@, self.dreams()@),
    {
        self.zoo.store_all(settings);
    }

    /// Takes one event of the window and says what the window has to do.
    ///
    /// * Closing closes the window.
    /// * Saving is done only while the settings differ from what was
    ///   saved last: the settings are then taken as saved and have to be
    ///   written.
    /// * A box of the general panel sets its flag.
    /// * The box of a dream sets whether the dream is selected, if the
    ///   dream is offered: see `SettingsRaw::set_dream_selected`.
    /// * A row of the table of color schemes puts its scheme in use.
    /// * The panel of a dream changes the state of that dream, which at
    ///   once stores it in the settings.
    pub fn update(&mut self, settings: &mut SettingsRaw, event: ConfigEvent) -> (action:
        ConfigAction)
        requires
            old(self).wf(),
            old(settings).wf(),
        ensures
            final(self).wf(),
            final(settings).wf(),
            final(self).schemes() == old(self).schemes(),
            final(self).dreams().wf(),
            match event {
                ConfigEvent::CloseClicked => {
                    &&& action == ConfigAction::CloseWindow
                    &&& final(settings)@ == old(settings)@
                    &&& final(self).saved() == old(self).saved()
                    &&& final(self).panel() == old(self).panel()
                    &&& final(self).dreams() == old(self).dreams()
                },
                ConfigEvent::SaveClicked => {
                    &&& final(settings)@ == old(settings)@
                    &&& final(self).saved() == old(settings)@
                    &&& final(self).panel() == old(self).panel()
                    &&& final(self).dreams() == old(self).dreams()
                    &&& action == if old(settings)@ != old(self).saved() {
                        ConfigAction::WriteSettings
                    } else {
                        ConfigAction::Nothing
                    }
                },
                ConfigEvent::PanelSelected(panel) => {
                    &&& action == ConfigAction::Nothing
                    &&& final(settings)@ == old(settings)@
                    &&& final(self).saved() == old(self).saved()
                    &&& final(self).panel() == panel
                    &&& final(self).dreams() == old(self).dreams()
                },
                ConfigEvent::ShowFpsSet(on) => {
                    &&& action == ConfigAction::Nothing
                    &&& final(settings)@ == (SettingsView { show_fps: on, ..old(settings)@ })
                    &&& final(self).saved() == old(self).saved()
                    &&& final(self).panel() == old(self).panel()
                    &&& final(self).dreams() == old(self).dreams()
                },
                ConfigEvent::MultiscreenSet(on) => {
                    &&& action == ConfigAction::Nothing
                    &&& final(settings)@ == (SettingsView {
                        attempt_multiscreen: on,
                        ..old(settings)@
                    })
                    &&& final(self).saved() == old(self).saved()
                    &&& final(self).panel() == old(self).panel()
                    &&& final(self).dreams() == old(self).dreams()
                },
                ConfigEvent::ViewportModeSet(mode) => {
                    &&& action == ConfigAction::Nothing
                    &&& final(settings)@ == (SettingsView { viewport_mode: mode, ..old(settings)@ })
                    &&& final(self).saved() == old(self).saved()
                    &&& final(self).panel() == old(self).panel()
                    &&& final(self).dreams() == old(self).dreams()
                },
                ConfigEvent::DreamChecked { id, active } => {
                    &&& action == ConfigAction::Nothing
                    &&& final(settings)@ == (SettingsView {
                        selected_dreams: final(settings)@.selected_dreams,
                        ..old(settings)@
                    })
                    &&& final(settings)@.selected_dreams.to_set() == if is_eligible(
                        id@,
                        old(settings)@.allow_dev_dreams,
                    ) {
                        selection_after(old(settings)@.selected_dreams.to_set(), id@, active)
                    } else {
                        old(settings)@.selected_dreams.to_set()
                    }
                    &&& final(self).saved() == old(self).saved()
                    &&& final(self).panel() == old(self).panel()
                    &&& final(self).dreams() == old(self).dreams()
                },
                ConfigEvent::SchemePressed(row) => {
                    &&& action == ConfigAction::Nothing
                    &&& final(settings)@ == if row < old(self).schemes().names().len() {
                        SettingsView {
                            color_scheme: old(self).schemes().schemes()[row as int],
                            ..old(settings)@
                        }
                    } else {
                        old(settings)@
                    }
                    &&& final(self).saved() == old(self).saved()
                    &&& final(self).panel() == old(self).panel()
                    &&& final(self).dreams() == old(self).dreams()
                },
                ConfigEvent::DreamConfigured(text) => {
                    &&& action == ConfigAction::Nothing
                    &&& final(self).saved() == old(self).saved()
                    &&& final(self).panel() == old(self).panel()
                    &&& match old(self).panel() {
                        ActivePanel::Dream(id) => match catalog_index(id@) {
                            Some(place) => {
                                &&& final(settings)@ == settings_after_store(
                                    old(settings)@,
                                    id@,
                                    text@,
                                )
                                &&& final(self).dreams()@[place].settings_text() == text@
                                &&& final(self).dreams()@[place].scheme() == old(
                                    self,
                                ).dreams()@[place].scheme()
                                &&& forall|i: int|
                                    0 <= i < 3 && i != place ==> final(self).dreams()@[i] == old(
                                        self,
                                    ).dreams()@[i]
                            },
                            None => final(settings)@ == old(settings)@ && final(self).dreams()
                                == old(self).dreams(),
                        },
                        _ => final(settings)@ == old(settings)@ && final(self).dreams() == old(
                            self,
                        ).dreams(),
                    }
                },
            },
    {
        match event {
            ConfigEvent::CloseClicked => ConfigAction::CloseWindow,
            ConfigEvent::SaveClicked => {
                if self.have_changes(settings) {
                    self.save(settings);
                    ConfigAction::WriteSettings
                } else {
                    ConfigAction::Nothing
                }
            },
            ConfigEvent::PanelSelected(panel) => {
                self.active_panel = panel;
                ConfigAction::Nothing
            },
            ConfigEvent::ShowFpsSet(on) => {
                settings.set_show_fps(on);
                ConfigAction::Nothing
            },
            ConfigEvent::MultiscreenSet(on) => {
                settings.set_attempt_multiscreen(on);
                ConfigAction::Nothing
            },
            ConfigEvent::ViewportModeSet(mode) => {
                settings.set_viewport_mode(mode);
                ConfigAction::Nothing
            },
            ConfigEvent::DreamChecked { id, active } => {
                let offered = match find_dream(id.as_str()) {
                    Some(place) => settings.allow_dev_dreams() || place != 1,
                    None => false,
                };
                if offered {
                    settings.set_dream_selected(id.as_str(), active);
                }
                ConfigAction::Nothing
            },
            ConfigEvent::SchemePressed(row) => {
                if row < self.color_schemes.len() {
                    let scheme = self.color_schemes.scheme_at(row).duplicate();
                    settings.set_color_scheme(scheme);
                }
                ConfigAction::Nothing
            },
            ConfigEvent::DreamConfigured(text) => {
                if let ActivePanel::Dream(id) = self.active_panel {
                    if find_dream(id).is_some() {
                        proof {
                            lemma_catalog_ids_differ();
                        }
                        let stored = text.clone();
                        self.zoo.configure(id, text);
                        settings.store_dream_settings(id, stored);
                    }
                }
                ConfigAction::Nothing
            },
        }
    }
}

} // verus!
