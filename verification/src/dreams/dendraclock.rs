//! A clock whose hands branch into a fractal.

use crate::app_settings::SettingsRaw;
use crate::color_scheme::{ColorScheme, ColorSchemeView};
use crate::dreams::{stored_text, Dream, DreamType, DreamUpdateRate};
use vstd::prelude::*;

verus! {

pub const DREAM_ID: &'static str = "fractal_clock";

pub const DREAM_NAME: &'static str = "Fractal Clock";

#[derive(Debug)]
pub struct DendraClockDream {
    dream_settings: String,
    color_scheme: ColorScheme,
}

impl DendraClockDream {
    /// The color scheme that the clock took from the settings when it was
    /// created.
    pub closed spec fn scheme(&self) -> ColorSchemeView {
        self.color_scheme@
    }

    /// Creates the clock with the color scheme and the stored state of
    /// the settings.
    pub fn with_scheme(settings: &SettingsRaw) -> (dream: DendraClockDream)
        requires
            settings.wf(),
        ensures
            dream.settings_text() == stored_text(settings@, dream.id_text()),
            dream.scheme() == settings@.color_scheme,
    {
        DendraClockDream {
            dream_settings: settings.stored_dream_settings(DREAM_ID),
            color_scheme: settings.color_scheme().duplicate(),
        }
    }

    /// The color scheme to paint with.
    pub fn color_scheme(&self) -> (scheme: &ColorScheme)
        ensures
            scheme@ == self.scheme(),
    {
        &self.color_scheme
    }
}

impl Dream for DendraClockDream {
    open spec fn id_text(&self) -> Seq<char> {
        DREAM_ID@
    }

    closed spec fn settings_text(&self) -> Seq<char> {
        self.dream_settings@
    }

    fn new(settings: &SettingsRaw) -> (dream: Self)
        ensures
            dream.scheme() == settings@.color_scheme,
    {
        DendraClockDream::with_scheme(settings)
    }

    fn id(&self) -> (id: &'static str) {
        DREAM_ID
    }

    fn name(&self) -> (name: &'static str)
        ensures
            name@ == DREAM_NAME@,
    {
        DREAM_NAME
    }

    fn prepare(&mut self)
        ensures
            final(self).scheme() == old(self).scheme(),
    {
    }

    fn needs_loading(&self) -> (needed: bool)
        ensures
            !needed,
    {
        false
    }

    fn in_development(&self) -> (hidden: bool)
        ensures
            !hidden,
    {
        false
    }

    fn preferred_update_rate(&self) -> (rate: DreamUpdateRate)
        ensures
            rate == DreamUpdateRate::Smooth,
    {
        DreamUpdateRate::Smooth
    }

    fn get_type(&self) -> (kind: DreamType)
        ensures
            kind == DreamType::Egui,
    {
        DreamType::Egui
    }

    fn can_render(&self) -> (able: bool)
        ensures
            able,
    {
        true
    }

    fn settings(&self) -> (text: &String) {
        &self.dream_settings
    }

    fn configure(&mut self, text: String)
        ensures
            final(self).scheme() == old(self).scheme(),
    {
        self.dream_settings = text;
    }

    fn store(&self, settings: &mut SettingsRaw) {
        settings.store_dream_settings(DREAM_ID, self.dream_settings.clone());
    }
}

} // verus!
