//! A dream as plain as can be: it fills the display with one color. It
//! serves as an example of how to write a dream.

use crate::app_settings::SettingsRaw;
use crate::color::Color;
use crate::dreams::{Dream, DreamType, DreamUpdateRate};
use vstd::prelude::*;

verus! {

pub const DREAM_ID: &'static str = "solid_color";

pub const DREAM_NAME: &'static str = "Solid Color";

#[derive(Debug)]
pub struct SolidColorDream {
    dream_settings: String,
}

impl SolidColorDream {
    /// The color of the background where none is stored.
    pub fn default_color() -> (color: Color)
        ensures
            color == (Color { r: 0x63, g: 0x51, b: 0x47, a: 255 }),
    {
        Color::new(0x63, 0x51, 0x47)
    }
}

impl Dream for SolidColorDream {
    open spec fn id_text(&self) -> Seq<char> {
        DREAM_ID@
    }

    closed spec fn settings_text(&self) -> Seq<char> {
        self.dream_settings@
    }

    fn new(settings: &SettingsRaw) -> (dream: Self) {
        SolidColorDream { dream_settings: settings.stored_dream_settings(DREAM_ID) }
    }

    fn id(&self) -> (id: &'static str) {
        DREAM_ID
    }

    fn name(&self) -> (name: &'static str)
        ensures
            name@ == DREAM_NAME@,
    {
        DREAM_NAME
    }

    fn prepare(&mut self) {
    }

    fn needs_loading(&self) -> (needed: bool)
        ensures
            !needed,
    {
        false
    }

    fn in_development(&self) -> (hidden: bool)
        ensures
            !hidden,
    {
        false
    }

    fn preferred_update_rate(&self) -> (rate: DreamUpdateRate)
        ensures
            rate == DreamUpdateRate::Fixed(5_000_000_000),
    {
        DreamUpdateRate::Fixed(5_000_000_000)
    }

    fn get_type(&self) -> (kind: DreamType)
        ensures
            kind == DreamType::Egui,
    {
        DreamType::Egui
    }

    fn can_render(&self) -> (able: bool)
        ensures
            able,
    {
        true
    }

    fn settings(&self) -> (text: &String) {
        &self.dream_settings
    }

    fn configure(&mut self, text: String) {
        self.dream_settings = text;
    }

    fn store(&self, settings: &mut SettingsRaw) {
        settings.store_dream_settings(DREAM_ID, self.dream_settings.clone());
    }
}

} // verus!
