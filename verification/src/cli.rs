//! The command line: `innu`, `innu --help`, `innu --version` and
//! `innu uninstall`.
use vstd::prelude::*;

use crate::text::{push_str, same_text};

verus! {

/// What the command line asks for.
#[derive(Debug, Clone, Copy, PartialEq, Eq, Structural)]
pub enum Command {
    Run,
    Help,
    Version,
    Uninstall,
}

/// A command line that is not understood.
#[derive(Debug, Clone, PartialEq, Eq)]
pub enum CliError {
    /// The first argument is no known command or option.
    UnrecognizedCommand(String),
    /// A command or option is followed by this further argument.
    UnexpectedArgument(String),
}

/// The command named by a first argument, if it names one.
pub open spec fn command_named(arg: Seq<char>) -> Option<Command> {
    if arg == "--help"@ || arg == "-h"@ {
        Some(Command::Help)
    } else if arg == "--version"@ || arg == "-v"@ {
        Some(Command::Version)
    } else if arg == "uninstall"@ {
        Some(Command::Uninstall)
    } else {
        None
    }
}

/// `command` if nothing follows it, else the first extra argument as an error.
pub fn ensure_no_extra_args(rest: &[String], command: Command) -> (r: Result<Command, CliError>)
    ensures
        rest@.len() == 0 ==> r == Ok::<Command, CliError>(command),
        rest@.len() > 0 ==> r == Err::<Command, CliError>(CliError::UnexpectedArgument(rest@[0])),
{
    if rest.len() > 0 {
        Err(CliError::UnexpectedArgument(rest[0].clone()))
    } else {
        Ok(command)
    }
}

/// Reads the arguments that follow the program name: none runs the app; a
/// known command or option must stand alone.
pub fn parse_cli(args: Vec<String>) -> (r: Result<Command, CliError>)
    ensures
        args@.len() == 0 ==> r == Ok::<Command, CliError>(Command::Run),
        args@.len() > 0 ==> match command_named(args@[0]@) {
            Some(c) => if args@.len() > 1 {
                r == Err::<Command, CliError>(CliError::UnexpectedArgument(args@[1]))
            } else {
                r == Ok::<Command, CliError>(c)
            },
            None => r == Err::<Command, CliError>(CliError::UnrecognizedCommand(args@[0])),
        },
{
    if args.len() == 0 {
        return Ok(Command::Run);
    }
    let ghost all = args@;
    let mut rest = args;
    let first = rest.remove(0);
    assert(rest@.len() > 0 ==> rest@[0] == all[1]);
    let named = if same_text(first.as_str(), "--help") || same_text(first.as_str(), "-h") {
        Some(Command::Help)
    } else if same_text(first.as_str(), "--version") || same_text(first.as_str(), "-v") {
        Some(Command::Version)
    } else if same_text(first.as_str(), "uninstall") {
        Some(Command::Uninstall)
    } else {
        None
    };
    match named {
        Some(c) => ensure_no_extra_args(rest.as_slice(), c),
        None => Err(CliError::UnrecognizedCommand(first)),
    }
}

/// The usage text that follows the name and version in the help.
pub open spec fn usage_text() -> Seq<char> {
    "\n\nUsage:\n  innu\n  innu uninstall\n  innu --help\n  innu --version\n\nOptions:\n  -h, --help       Show this help message\n  -v, --version    Show the installed version\n\nCommands:\n  uninstall        Remove the installed binary, desktop entry, autostart entry, and app config"@
}

/// The help text of the given version.
pub fn help_text(version: &str) -> (r: String)
    ensures
        r@ == "Innu "@ + version@ + usage_text(),
{
    let mut s = "Innu ".to_owned();
    push_str(&mut s, version);
    push_str(&mut s, "\n\nUsage:\n  innu\n  innu uninstall\n  innu --help\n  innu --version\n\nOptions:\n  -h, --help       Show this help message\n  -v, --version    Show the installed version\n\nCommands:\n  uninstall        Remove the installed binary, desktop entry, autostart entry, and app config");
    s
}

/// What is printed for a command line that is not understood: the problem,
/// a blank line, and the help.
pub fn cli_error_message(error: &CliError, version: &str) -> (r: String)
    ensures
        r@ == (match error {
            CliError::UnrecognizedCommand(a) => "unrecognized command or option: "@ + a@,
            CliError::UnexpectedArgument(a) => "unexpected argument: "@ + a@,
        }) + "\n\n"@ + "Innu "@ + version@ + usage_text(),
{
    let mut s = match error {
        CliError::UnrecognizedCommand(a) => {
            let mut t = "unrecognized command or option: ".to_owned();
            push_str(&mut t, a.as_str());
            t
        },
        CliError::UnexpectedArgument(a) => {
            let mut t = "unexpected argument: ".to_owned();
            push_str(&mut t, a.as_str());
            t
        },
    };
    push_str(&mut s, "\n\n");
    let help = help_text(version);
    push_str(&mut s, help.as_str());
    s
}

} // verus!
