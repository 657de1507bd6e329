//! The corrective action: how it is configured, and which system call each kind
//! stands for. Performing the call is the dispatcher's part.

use vstd::prelude::*;
use crate::text::same_text;

verus! {

/// What to do when the unwanted network path is detected.
#[derive(Debug, Clone, PartialEq, Eq)]
pub enum Action {
    Reboot,
    RestartUnit(String),
    /// Runs a shell command; also what an unknown action type becomes.
    Command(String),
}

/// The action that `action_type` and `arg` configure.
pub open spec fn configured_action(action_type: Seq<char>, arg: Seq<char>, a: Action) -> bool {
    if action_type == "reboot"@ {
        a == Action::Reboot
    } else if action_type == "restart-unit"@ {
        a matches Action::RestartUnit(u) && u@ == arg
    } else {
        a matches Action::Command(c) && c@ == arg
    }
}

/// Reads an action: `reboot`, `restart-unit` (with the unit in `arg`) or
/// `command` (with the command line in `arg`); any other type falls back to a
/// command with `arg`.
pub fn parse_action(action_type: &str, arg: &str) -> (r: Action)
    ensures
        configured_action(action_type@, arg@, r),
{
    if same_text(action_type, "reboot") {
        Action::Reboot
    } else if same_text(action_type, "restart-unit") {
        Action::RestartUnit(arg.to_owned())
    } else {
        Action::Command(arg.to_owned())
    }
}

/// The side effect behind an action.
#[derive(Debug, Clone, PartialEq, Eq)]
pub enum SystemCall {
    /// `org.freedesktop.login1.Manager.Reboot(true)` on the system bus.
    LogindReboot,
    /// `org.freedesktop.systemd1.Manager.RestartUnit(unit, "replace")` on the system bus.
    RestartUnit(String),
    /// `sh -c` with this command line.
    Shell(String),
}

/// The system call that `action` makes; none at all in dry-run mode.
pub fn system_call_for(action: &Action, dry_run: bool) -> (r: Option<SystemCall>)
    ensures
        dry_run ==> r is None,
        !dry_run ==> match *action {
            Action::Reboot => r == Some(SystemCall::LogindReboot),
            Action::RestartUnit(u) => r matches Some(SystemCall::RestartUnit(v)) && v@ == u@,
            Action::Command(c) => r matches Some(SystemCall::Shell(v)) && v@ == c@,
        },
{
    if dry_run {
        return None;
    }
    match action {
        Action::Reboot => Some(SystemCall::LogindReboot),
        Action::RestartUnit(u) => Some(SystemCall::RestartUnit(u.clone())),
        Action::Command(c) => Some(SystemCall::Shell(c.clone())),
    }
}

/// A dispatcher of actions. With `dry_run` it must cause no side effect and
/// report success.
pub trait ActionRunner {
    fn execute(&self, action: &Action, dry_run: bool) -> Result<(), String>;
}

} // verus!
