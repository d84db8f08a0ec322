//! The window in which the settings are edited.

use vstd::prelude::*;

verus! {

/// The page that shows the settings.
pub const SETTINGS_PAGE: &'static str = "/src/settings.html";

/// The label of the window.
pub const SETTINGS_LABEL: &'static str = "primary";

#[derive(Debug)]
pub struct SettingsWindow {}

impl SettingsWindow {
    pub fn new() -> (window: SettingsWindow) {
        SettingsWindow {  }
    }

    /// The page that the window shows.
    pub fn page(&self) -> (page: &'static str)
        ensures
            page@ == SETTINGS_PAGE@,
    {
        SETTINGS_PAGE
    }
}

} // verus!
