//! The command line: what the program is asked to do.
use crate::config::{OsText, OsTextView};
use crate::settings::HeaderMode;
use crate::text::str_eq;
use vstd::prelude::*;

verus! {

broadcast use vstd::string::group_string_axioms;

/// The usage text printed for `--help` and after an unknown command.
pub const USAGE: &'static str = "usage: zter [-s|--standalone]\n       zter <-v|--version>\n       zter settings <apply|reload>\n       zter header <full|mini|hide|show>";

/// What the program is asked to do.
#[derive(Clone, Copy, Debug, PartialEq, Eq, Structural)]
pub enum Command {
    /// Open the terminal; a standalone instance does not join a running one.
    Run { standalone: bool },
    /// Replace the user's settings with the project settings.
    SettingsApply,
    /// Ask a running instance to reload its settings.
    SettingsReload,
    /// Save the header mode and show it in a running instance.
    Header(HeaderMode),
    Version,
    Help,
}

/// Whether the argument is the text `s`.
pub open spec fn is_text(argument: OsTextView, s: Seq<char>) -> bool {
    argument == OsTextView::Unicode(s)
}

/// The command that the arguments (without the program name) select.
pub open spec fn command_of(arguments: Seq<OsTextView>) -> Option<Command> {
    if arguments.len() == 0 {
        Some(Command::Run { standalone: false })
    } else if arguments.len() == 1 {
        let a = arguments[0];
        if is_text(a, "--standalone"@) || is_text(a, "-s"@) {
            Some(Command::Run { standalone: true })
        } else if is_text(a, "--version"@) || is_text(a, "-v"@) {
            Some(Command::Version)
        } else if is_text(a, "--help"@) || is_text(a, "-h"@) {
            Some(Command::Help)
        } else {
            None
        }
    } else if arguments.len() == 2 && is_text(arguments[0], "settings"@) {
        if is_text(arguments[1], "apply"@) {
            Some(Command::SettingsApply)
        } else if is_text(arguments[1], "reload"@) {
            Some(Command::SettingsReload)
        } else {
            None
        }
    } else if arguments.len() == 2 && is_text(arguments[0], "header"@) {
        if is_text(arguments[1], "full"@) || is_text(arguments[1], "show"@) {
            Some(Command::Header(HeaderMode::Full))
        } else if is_text(arguments[1], "mini"@) {
            Some(Command::Header(HeaderMode::Mini))
        } else if is_text(arguments[1], "hide"@) {
            Some(Command::Header(HeaderMode::Hidden))
        } else {
            None
        }
    } else {
        None
    }
}

fn argument_is(argument: &OsText, s: &str) -> (result: bool)
    ensures
        result == is_text(argument.spec_view(), s@),
{
    match argument {
        OsText::Unicode(a) => str_eq(a.as_str(), s),
        OsText::NonUnicode(_) => false,
    }
}

/// The command that the arguments (without the program name) select, or
/// the message for arguments that select none.
pub fn command_from_arguments(arguments: &[OsText]) -> (result: Result<Command, &'static str>)
    ensures
        match result {
            Ok(c) => command_of(arguments@.map_values(|a: OsText| a.spec_view())) == Some(c),
            Err(message) => command_of(arguments@.map_values(|a: OsText| a.spec_view())) is None
                && message@ == "unknown command"@,
        },
{
    let ghost views = arguments@.map_values(|a: OsText| a.spec_view());
    if arguments.len() == 0 {
        return Ok(Command::Run { standalone: false });
    }
    if arguments.len() == 1 {
        let a = &arguments[0];
        assert(views[0] == a.spec_view());
        if argument_is(a, "--standalone") || argument_is(a, "-s") {
            return Ok(Command::Run { standalone: true });
        } else if argument_is(a, "--version") || argument_is(a, "-v") {
            return Ok(Command::Version);
        } else if argument_is(a, "--help") || argument_is(a, "-h") {
            return Ok(Command::Help);
        }
        return Err("unknown command");
    }
    if arguments.len() == 2 {
        assert(views[0] == arguments@[0].spec_view());
        assert(views[1] == arguments@[1].spec_view());
        if argument_is(&arguments[0], "settings") {
            if argument_is(&arguments[1], "apply") {
                return Ok(Command::SettingsApply);
            } else if argument_is(&arguments[1], "reload") {
                return Ok(Command::SettingsReload);
            }
        } else if argument_is(&arguments[0], "header") {
            if argument_is(&arguments[1], "full") || argument_is(&arguments[1], "show") {
                return Ok(Command::Header(HeaderMode::Full));
            } else if argument_is(&arguments[1], "mini") {
                return Ok(Command::Header(HeaderMode::Mini));
            } else if argument_is(&arguments[1], "hide") {
                return Ok(Command::Header(HeaderMode::Hidden));
            }
        }
    }
    Err("unknown command")
}

} // verus!
