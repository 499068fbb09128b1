//! Power actions: what each one asks of the system, and how it is carried
//! out with the on-screen helper in front of the bus.
//!
//! Log-out, restart and shutdown first go to the helper program, which asks
//! the user to confirm. Only where the helper cannot be started does the
//! request go to the bus. Lock and suspend go to the bus at once.

use crate::text::text_eq;
use vstd::prelude::*;
use vstd::string::*;

verus! {

/// One of the five things the menu can ask of the system.
#[derive(Debug, Clone, Copy, PartialEq, Eq, Structural)]
pub enum PowerAction {
    Lock,
    LogOut,
    Suspend,
    Restart,
    Shutdown,
}

/// A request on a message bus.
#[derive(Debug, Clone, Copy, PartialEq, Eq, Structural)]
pub enum BusCall {
    /// Lock the user's graphical sessions, one by one.
    LockSessions,
    /// Ask the session manager to end the session.
    SessionExit,
    /// Ask the login manager to suspend the machine.
    Suspend { interactive: bool },
    /// Ask the login manager to restart the machine.
    Reboot { interactive: bool },
    /// Ask the login manager to power the machine off.
    PowerOff { interactive: bool },
}

/// The two message buses.
#[derive(Debug, Clone, Copy, PartialEq, Eq, Structural)]
pub enum Bus {
    System,
    Session,
}

/// A program with its arguments, as plain values.
pub struct CommandLineView {
    pub program: Seq<char>,
    pub args: Seq<Seq<char>>,
}

/// A program to start, with its arguments.
#[derive(Debug, PartialEq, Eq)]
pub struct CommandLine {
    pub program: String,
    pub args: Vec<String>,
}

impl DeepView for CommandLine {
    type V = CommandLineView;

    open spec fn deep_view(&self) -> CommandLineView {
        CommandLineView { program: self.program@, args: self.args.deep_view() }
    }
}

impl View for CommandLine {
    type V = CommandLineView;

    open spec fn view(&self) -> CommandLineView {
        self.deep_view()
    }
}

/// What follows when the helper program was, or was not, started.
#[derive(Debug, Clone, Copy, PartialEq, Eq, Structural)]
pub enum AfterHelper {
    /// The helper runs and takes over: the menu closes.
    ClosePopup,
    /// The helper could not be started: make the request on the bus.
    Call(BusCall),
}

/// The action that a stored command text stands for. A text that names no
/// action stands for log-out, and a missing text for shutdown.
pub open spec fn spec_from_command(command: Option<Seq<char>>) -> PowerAction {
    match command {
        Some(c) => if c == "Lock"@ {
            PowerAction::Lock
        } else if c == "Logout"@ {
            PowerAction::LogOut
        } else if c == "Suspend"@ {
            PowerAction::Suspend
        } else if c == "Restart"@ {
            PowerAction::Restart
        } else if c == "Shutdown"@ {
            PowerAction::Shutdown
        } else {
            PowerAction::LogOut
        },
        None => PowerAction::Shutdown,
    }
}

/// The helper program's argument for an action, for the actions that go to
/// the helper first.
pub open spec fn spec_osd_arg(action: PowerAction) -> Option<Seq<char>> {
    match action {
        PowerAction::LogOut => Some("log-out"@),
        PowerAction::Restart => Some("restart"@),
        PowerAction::Shutdown => Some("shutdown"@),
        _ => None,
    }
}

/// The bus request of an action.
pub open spec fn spec_perform(action: PowerAction) -> BusCall {
    match action {
        PowerAction::Lock => BusCall::LockSessions,
        PowerAction::LogOut => BusCall::SessionExit,
        PowerAction::Suspend => BusCall::Suspend { interactive: true },
        PowerAction::Restart => BusCall::Reboot { interactive: true },
        PowerAction::Shutdown => BusCall::PowerOff { interactive: true },
    }
}

/// How the helper program is started for `arg`: directly, or from inside a
/// sandbox through the host spawner.
pub open spec fn spec_helper_line(arg: Seq<char>, sandboxed: bool) -> CommandLineView {
    if sandboxed {
        CommandLineView {
            program: "flatpak-spawn"@,
            args: seq!["--host"@, "cosmic-osd"@, arg],
        }
    } else {
        CommandLineView { program: "cosmic-osd"@, args: seq![arg] }
    }
}

/// The helper command of an action, for the actions that have one.
pub open spec fn spec_helper_command(action: PowerAction, sandboxed: bool) -> Option<
    CommandLineView,
> {
    match spec_osd_arg(action) {
        Some(arg) => Some(spec_helper_line(arg, sandboxed)),
        None => None,
    }
}

/// What follows the attempt to start the helper for `action`.
pub open spec fn spec_after_helper(action: PowerAction, started: bool) -> AfterHelper {
    if started {
        AfterHelper::ClosePopup
    } else {
        AfterHelper::Call(spec_perform(action))
    }
}

impl BusCall {
    /// The bus on which the request is made: ending the session is asked
    /// of the session bus, everything else of the system bus.
    pub fn bus(self) -> (bus: Bus)
        ensures
            bus == (if self == BusCall::SessionExit {
                Bus::Session
            } else {
                Bus::System
            }),
    {
        match self {
            BusCall::SessionExit => Bus::Session,
            _ => Bus::System,
        }
    }
}

impl PowerAction {
    /// The action that a menu item's command text stands for.
    pub fn from_command(command: Option<&str>) -> (action: PowerAction)
        ensures
            action == spec_from_command(
                match command {
                    Some(c) => Some(c@),
                    None => None,
                },
            ),
    {
        match command {
            Some(c) => {
                if text_eq(c, "Lock") {
                    PowerAction::Lock
                } else if text_eq(c, "Logout") {
                    PowerAction::LogOut
                } else if text_eq(c, "Suspend") {
                    PowerAction::Suspend
                } else if text_eq(c, "Restart") {
                    PowerAction::Restart
                } else if text_eq(c, "Shutdown") {
                    PowerAction::Shutdown
                } else {
                    PowerAction::LogOut
                }
            },
            None => PowerAction::Shutdown,
        }
    }

    /// The bus request that carries the action out.
    pub fn perform(self) -> (call: BusCall)
        ensures
            call == spec_perform(self),
    {
        match self {
            PowerAction::Lock => BusCall::LockSessions,
            PowerAction::LogOut => BusCall::SessionExit,
            PowerAction::Suspend => BusCall::Suspend { interactive: true },
            PowerAction::Restart => BusCall::Reboot { interactive: true },
            PowerAction::Shutdown => BusCall::PowerOff { interactive: true },
        }
    }

    /// The helper program's argument for the action, if the action goes to
    /// the helper first.
    pub fn osd_arg(self) -> (arg: Option<&'static str>)
        ensures
            (match arg {
                Some(a) => Some(a@),
                None => None,
            }) == spec_osd_arg(self),
    {
        match self {
            PowerAction::LogOut => Some("log-out"),
            PowerAction::Restart => Some("restart"),
            PowerAction::Shutdown => Some("shutdown"),
            _ => None,
        }
    }

    /// The command that starts the helper for the action, if the action goes
    /// to the helper first.
    pub fn helper_command(self, sandboxed: bool) -> (line: Option<CommandLine>)
        ensures
            line.deep_view() == spec_helper_command(self, sandboxed),
    {
        match self.osd_arg() {
            Some(arg) => {
                let mut args: Vec<String> = Vec::new();
                let program = if sandboxed {
                    args.push("--host".to_owned());
                    args.push("cosmic-osd".to_owned());
                    "flatpak-spawn".to_owned()
                } else {
                    "cosmic-osd".to_owned()
                };
                args.push(arg.to_owned());
                let line = CommandLine { program, args };
                assert(line@.args =~= spec_helper_line(arg@, sandboxed).args);
                Some(line)
            },
            None => None,
        }
    }

    /// What follows the attempt to start the helper: where it was started
    /// the menu closes, whatever the helper does later; where it could not
    /// be started the request goes to the bus.
    pub fn after_helper(self, started: bool) -> (next: AfterHelper)
        ensures
            next == spec_after_helper(self, started),
    {
        if started {
            AfterHelper::ClosePopup
        } else {
            AfterHelper::Call(self.perform())
        }
    }
}

} // verus!
