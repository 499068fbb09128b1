//! Launching a command of the menu.
//!
//! A command is handed to the shell as it stands. Inside a sandbox it is
//! handed, word by word, to the host spawner instead; the menu's own
//! settings program is the one exception, which also starts through the
//! shell there.

use crate::power::{CommandLine, CommandLineView};
use crate::text::{split_whitespace, text_eq, words};
use vstd::prelude::*;
use vstd::string::*;

verus! {

/// The command of the menu's own settings program.
pub open spec fn settings_command() -> Seq<char> {
    "cosmic-logomenu-settings"@
}

/// The program and arguments that start `action`.
pub open spec fn spec_launch_command(action: Seq<char>, sandboxed: bool) -> CommandLineView {
    if sandboxed && action != settings_command() {
        CommandLineView { program: "flatpak-spawn"@, args: seq!["--host"@] + words(action) }
    } else {
        CommandLineView { program: "sh"@, args: seq!["-c"@, action] }
    }
}

/// The program and arguments that start `action`.
pub fn launch_command(action: &str, sandboxed: bool) -> (line: CommandLine)
    ensures
        line@ == spec_launch_command(action@, sandboxed),
{
    if sandboxed && !text_eq(action, "cosmic-logomenu-settings") {
        let mut args: Vec<String> = Vec::new();
        args.push("--host".to_owned());
        let mut parts = split_whitespace(action);
        let ghost parts_view = parts.deep_view();
        args.append(&mut parts);
        let line = CommandLine { program: "flatpak-spawn".to_owned(), args };
        assert(line@.args =~= seq!["--host"@] + parts_view);
        line
    } else {
        let mut args: Vec<String> = Vec::new();
        args.push("-c".to_owned());
        args.push(action.to_owned());
        let line = CommandLine { program: "sh".to_owned(), args };
        assert(line@.args =~= seq!["-c"@, action@]);
        line
    }
}

} // verus!
