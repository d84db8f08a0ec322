//! The command line, in the convention of Windows screensavers.
//!
//! One of the following is accepted, in either case:
//!
//! * nothing: show the dreams full screen;
//! * `/s`, `/s:handle` or `/s handle`: show the dreams, optionally inside
//!   the window with the given handle;
//! * `/c` or `/c:handle`: open the configuration window;
//! * `/p:handle` or `/p handle`: preview inside the given window.
//!
//! A handle is a positive decimal number. It may be attached with a colon
//! or follow as an argument of its own, never both.

use crate::text::{lowercase_of, parse_usize, parse_usize_spec, texts, to_chars, to_lowercase};
use vstd::prelude::*;

verus! {

/// What the program was asked to do.
#[derive(Debug, PartialEq, Eq, Clone, Copy, Structural)]
pub enum MainCommand {
    Show,
    Preview,
    Config,
}

/// A command together with the window handle that came with it.
#[derive(Debug, PartialEq, Eq, Clone, Copy)]
pub struct ParsedArguments {
    pub command: MainCommand,
    pub handle: Option<usize>,
}

/// Why a command line was refused.
#[derive(Debug, PartialEq, Eq, Clone, Copy, Structural)]
pub enum ParseError {
    /// More than two arguments after the program's name.
    WrongArgumentCount,
    /// The second argument is not a positive number.
    BadHandleArgument,
    /// The first argument does not start with `/`, or its third
    /// character is not `:`.
    BadCommandForm,
    /// What follows the colon of the first argument is not a positive number.
    BadAttachedHandle,
    /// A handle was attached to the command and another one followed it.
    TwoHandles,
    /// The command letter is missing or is none of `c`, `s` and `p`.
    UnknownCommand,
    /// A preview was asked for without a window to draw it in.
    PreviewWithoutHandle,
}

impl ParseError {
    /// A sentence for the log.
    pub fn message(&self) -> (text: &'static str)
        ensures
            text@ == match *self {
                ParseError::WrongArgumentCount => "Wrong number of arguments"@,
                ParseError::BadHandleArgument => "Can't parse argument 2"@,
                ParseError::BadCommandForm => "Argument 1 bad form"@,
                ParseError::BadAttachedHandle => "Can't parse handle"@,
                ParseError::TwoHandles => "Provided 2 handles together"@,
                ParseError::UnknownCommand => "Unknown command letter"@,
                ParseError::PreviewWithoutHandle => "Preview should not be passed without a handle"@,
            },
    {
        match self {
            ParseError::WrongArgumentCount => "Wrong number of arguments",
            ParseError::BadHandleArgument => "Can't parse argument 2",
            ParseError::BadCommandForm => "Argument 1 bad form",
            ParseError::BadAttachedHandle => "Can't parse handle",
            ParseError::TwoHandles => "Provided 2 handles together",
            ParseError::UnknownCommand => "Unknown command letter",
            ParseError::PreviewWithoutHandle => "Preview should not be passed without a handle",
        }
    }
}

/// The handle that `s` denotes: a decimal number that fits and is not zero.
pub open spec fn handle_of(s: Seq<char>) -> Option<usize> {
    match parse_usize_spec(s) {
        Some(n) => if n == 0 {
            None
        } else {
            Some(n)
        },
        None => None,
    }
}

/// What follows the colon of a command such as `/p:17`.
pub open spec fn attached_text(command: Seq<char>) -> Seq<char> {
    command.subrange(3, command.len() as int)
}

/// The command that a letter stands for.
pub open spec fn command_of(letter: char) -> Option<MainCommand> {
    if letter == 'c' {
        Some(MainCommand::Config)
    } else if letter == 's' {
        Some(MainCommand::Show)
    } else if letter == 'p' {
        Some(MainCommand::Preview)
    } else {
        None
    }
}

/// The meaning of a command with its attached and its following handle,
/// at most one of which is present.
pub open spec fn interpret(command: Seq<char>, handle: Option<usize>) -> Result<
    ParsedArguments,
    ParseError,
> {
    if command.len() < 2 {
        Err(ParseError::UnknownCommand)
    } else {
        match command_of(command[1]) {
            None => Err(ParseError::UnknownCommand),
            Some(MainCommand::Preview) => if handle is None {
                Err(ParseError::PreviewWithoutHandle)
            } else {
                Ok(ParsedArguments { command: MainCommand::Preview, handle })
            },
            Some(c) => Ok(ParsedArguments { command: c, handle }),
        }
    }
}

/// The meaning of a command line whose arguments are already in lower
/// case. `args[0]` is the program's name. A command line without
/// arguments, with or without the program's name, shows the dreams. The
/// checks are made in this order, and the first that fails names the
/// error.
pub open spec fn parse_lowered(args: Seq<Seq<char>>) -> Result<ParsedArguments, ParseError> {
    if args.len() > 3 {
        Err(ParseError::WrongArgumentCount)
    } else if args.len() <= 1 {
        Ok(ParsedArguments { command: MainCommand::Show, handle: None })
    } else if args.len() == 3 && handle_of(args[2]) is None {
        Err(ParseError::BadHandleArgument)
    } else if args[1].len() == 0 || args[1][0] != '/' {
        Err(ParseError::BadCommandForm)
    } else if args[1].len() > 2 && args[1][2] != ':' {
        Err(ParseError::BadCommandForm)
    } else if args[1].len() > 2 && handle_of(attached_text(args[1])) is None {
        Err(ParseError::BadAttachedHandle)
    } else if args.len() == 3 && args[1].len() > 2 {
        Err(ParseError::TwoHandles)
    } else if args.len() == 3 {
        interpret(args[1], handle_of(args[2]))
    } else if args[1].len() > 2 {
        interpret(args[1], handle_of(attached_text(args[1])))
    } else {
        interpret(args[1], None)
    }
}

/// A handle that comes with an accepted command line is a positive
/// number, and a preview always has one.
pub proof fn lemma_accepted_handle(args: Seq<Seq<char>>)
    requires
        parse_lowered(args) is Ok,
    ensures
        parse_lowered(args)->Ok_0.handle matches Some(handle) ==> handle > 0,
        parse_lowered(args)->Ok_0.command == MainCommand::Preview ==> parse_lowered(
            args,
        )->Ok_0.handle is Some,
{
}

/// Whether `command` is a command letter behind a slash, with or
/// without something attached by a colon.
pub open spec fn is_command(command: Seq<char>) -> bool {
    &&& command.len() >= 2
    &&& command[0] == '/'
    &&& command_of(command[1]) is Some
    &&& command.len() > 2 ==> command[2] == ':'
}

/// A command line is refused exactly when it has more than two arguments
/// after the program's name, or has at least one and
///
/// * the first is no command, or
/// * a handle is attached or follows that is no positive number, or
/// * one handle is attached and another follows, or
/// * a preview is asked for without a handle.
pub proof fn lemma_refused_exactly_when(args: Seq<Seq<char>>)
    ensures
        parse_lowered(args) is Err <==> args.len() > 3 || (args.len() >= 2 && {
            ||| !is_command(args[1])
            ||| args[1].len() > 2 && handle_of(attached_text(args[1])) is None
            ||| args.len() == 3 && handle_of(args[2]) is None
            ||| args[1].len() > 2 && args.len() == 3
            ||| command_of(args[1][1]) == Some(MainCommand::Preview) && args[1].len() == 2
                && args.len() == 2
        }),
{
}

/// The lowercase form of each argument.
pub open spec fn lowered_texts(args: Seq<String>) -> Seq<Seq<char>> {
    args.map_values(|s: String| lowercase_of(s@))
}

/// Reads a handle: a positive decimal number.
pub fn parse_handle(chars: &Vec<char>) -> (handle: Option<usize>)
    ensures
        handle == handle_of(chars@),
{
    match parse_usize(chars) {
        Some(n) => if n == 0 {
            None
        } else {
            Some(n)
        },
        None => None,
    }
}

/// Parses a command line whose arguments are already in lower case.
pub fn parse_lowered_args(args: &[String]) -> (parsed: Result<ParsedArguments, ParseError>)
    ensures
        parsed == parse_lowered(texts(args@)),
{
    if args.len() > 3 {
        return Err(ParseError::WrongArgumentCount);
    }
    // No arguments at all is acceptable.
    if args.len() <= 1 {
        return Ok(ParsedArguments { command: MainCommand::Show, handle: None });
    }
    let following: Option<usize> = if args.len() == 3 {
        let chars = to_chars(args[2].as_str());
        match parse_handle(&chars) {
            Some(n) => Some(n),
            None => {
                return Err(ParseError::BadHandleArgument);
            },
        }
    } else {
        None
    };
    let command_chars = to_chars(args[1].as_str());
    if command_chars.len() == 0 || command_chars[0] != '/' {
        return Err(ParseError::BadCommandForm);
    }
    let attached: Option<usize> = if command_chars.len() > 2 {
        if command_chars[2] != ':' {
            return Err(ParseError::BadCommandForm);
        }
        let mut rest: Vec<char> = Vec::new();
        let mut i: usize = 3;
        while i < command_chars.len()
            invariant
                3 <= i <= command_chars.len(),
                rest@ == command_chars@.subrange(3, i as int),
            decreases command_chars.len() - i,
        {
            rest.push(command_chars[i]);
            i += 1;
        }
        match parse_handle(&rest) {
            Some(n) => Some(n),
            None => {
                return Err(ParseError::BadAttachedHandle);
            },
        }
    } else {
        None
    };
    if following.is_some() && attached.is_some() {
        return Err(ParseError::TwoHandles);
    }
    let handle = if following.is_some() {
        following
    } else {
        attached
    };
    if command_chars.len() < 2 {
        return Err(ParseError::UnknownCommand);
    }
    let letter = command_chars[1];
    let command = if letter == 'c' {
        MainCommand::Config
    } else if letter == 's' {
        MainCommand::Show
    } else if letter == 'p' {
        MainCommand::Preview
    } else {
        return Err(ParseError::UnknownCommand);
    };
    if let MainCommand::Preview = command {
        if handle.is_none() {
            return Err(ParseError::PreviewWithoutHandle);
        }
    }
    Ok(ParsedArguments { command, handle })
}

/// Parses the command line. `args_in[0]` is the program's name. Every
/// argument is first put in lower case; the result is then what
/// `parse_lowered` says of the lowered arguments.
pub fn parse_args(args_in: &[String]) -> (parsed: Result<ParsedArguments, ParseError>)
    ensures
        parsed == parse_lowered(lowered_texts(args_in@)),
{
    let mut args: Vec<String> = Vec::new();
    let mut i: usize = 0;
    while i < args_in.len()
        invariant
            i <= args_in.len(),
            args.len() == i,
            forall|j: int| 0 <= j < i ==> (#[trigger] args@[j])@ == lowercase_of(args_in@[j]@),
        decreases args_in.len() - i,
    {
        args.push(to_lowercase(args_in[i].as_str()));
        i += 1;
    }
    parse_lowered_args(args.as_slice())
}

} // verus!
