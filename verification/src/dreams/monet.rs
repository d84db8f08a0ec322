//! A dream that is still in development.

use crate::app_settings::SettingsRaw;
use crate::dreams::{Dream, DreamType, DreamUpdateRate};
use vstd::prelude::*;

verus! {

pub const DREAM_ID: &'static str = "monet";

pub const DREAM_NAME: &'static str = "Monet";

#[derive(Debug)]
pub struct MonetDream {
    dream_settings: String,
}

impl Dream for MonetDream {
    open spec fn id_text(&self) -> Seq<char> {
        DREAM_ID@
    }

    closed spec fn settings_text(&self) -> Seq<char> {
        self.dream_settings@
    }

    fn new(settings: &SettingsRaw) -> (dream: Self) {
        MonetDream { dream_settings: settings.stored_dream_settings(DREAM_ID) }
    }

    fn id(&self) -> (id: &'static str) {
        DREAM_ID
    }

    fn name(&self) -> (name: &'static str)
        ensures
            name@ == DREAM_NAME@,
    {
        DREAM_NAME
    }

    fn prepare(&mut self) {
    }

    fn needs_loading(&self) -> (needed: bool)
        ensures
            !needed,
    {
        false
    }

    fn in_development(&self) -> (hidden: bool)
        ensures
            hidden,
    {
        true
    }

    fn preferred_update_rate(&self) -> (rate: DreamUpdateRate)
        ensures
            rate == DreamUpdateRate::Fixed(500_000_000),
    {
        DreamUpdateRate::Fixed(500_000_000)
    }

    fn get_type(&self) -> (kind: DreamType)
        ensures
            kind == DreamType::Egui,
    {
        DreamType::Egui
    }

    fn can_render(&self) -> (able: bool)
        ensures
            !able,
    {
        false
    }

    fn settings(&self) -> (text: &String) {
        &self.dream_settings
    }

    fn configure(&mut self, text: String) {
        self.dream_settings = text;
    }

    fn store(&self, settings: &mut SettingsRaw) {
        settings.store_dream_settings(DREAM_ID, self.dream_settings.clone());
    }
}

} // verus!
