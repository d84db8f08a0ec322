//! Decisions and data of a screensaver that cycles through pluggable
//! renderers ("dreams") on one or more displays.

pub mod app_settings;
pub mod color;
pub mod color_scheme;
pub mod display;
pub mod dream_runner;
pub mod dreamconfig;
pub mod dreams;
pub mod dreamspinner;
pub mod ordered;
pub mod parse_cli;
pub mod registry;
pub mod settings_window;
pub mod text;

use crate::parse_cli::{
    lemma_accepted_handle, lowered_texts, parse_args, parse_lowered, MainCommand, ParseError,
    ParsedArguments,
};
use vstd::prelude::*;

verus! {

/// What the program does after it has read its command line.
#[derive(Debug, PartialEq, Eq, Clone, Copy)]
pub enum StartupAction {
    /// Show the dreams.
    ShowDream,
    /// Open the settings.
    ShowConfig,
    /// Show a preview inside the window with the given handle.
    ShowPreview(usize),
}

/// What is done for a command. A preview always comes with its handle.
pub open spec fn action_of(parsed: ParsedArguments) -> StartupAction {
    match parsed.command {
        MainCommand::Show => StartupAction::ShowDream,
        MainCommand::Config => StartupAction::ShowConfig,
        MainCommand::Preview => StartupAction::ShowPreview(parsed.handle->Some_0),
    }
}

/// Reads the command line and decides what the program does. `args[0]`
/// is the program's name. A command line that cannot be read ends the
/// program.
pub fn run(args: &[String]) -> (action: Result<StartupAction, ParseError>)
    ensures
        action == match parse_lowered(lowered_texts(args@)) {
            Ok(parsed) => Ok::<StartupAction, ParseError>(action_of(parsed)),
            Err(e) => Err(e),
        },
{
    let parsed = match parse_args(args) {
        Ok(p) => p,
        Err(e) => {
            return Err(e);
        },
    };
    proof {
        if parsed.command == MainCommand::Preview {
            lemma_accepted_handle(lowered_texts(args@));
        }
    }
    match parsed.command {
        MainCommand::Show => Ok(StartupAction::ShowDream),
        MainCommand::Config => Ok(StartupAction::ShowConfig),
        MainCommand::Preview => match parsed.handle {
            Some(handle) => Ok(StartupAction::ShowPreview(handle)),
            None => Err(ParseError::PreviewWithoutHandle),
        },
    }
}

} // verus!
