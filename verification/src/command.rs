//! Decision rules over the outcomes of the shell commands the application
//! runs: the install-status probe and the install/remove/update actions.
//! The processes themselves are spawned outside this library; callers hand
//! in what they observed and these functions decide what it means.

use vstd::prelude::*;
use crate::package::Package;

verus! {

/// What running one shell command was observed to do.
#[derive(Clone, Copy)]
pub enum CommandOutcome {
    /// The process ran to completion; `code` is its exit status, or
    /// `None` when it ended without one (terminated by a signal).
    Exited { code: Option<i32> },
    /// The command could not be launched at all (missing shell,
    /// permission denied, ...).
    SpawnFailed,
}

/// Why an install/remove/update action failed.
#[derive(Clone, Copy, Debug, PartialEq, Eq)]
pub enum ActionError {
    /// The action command could not be launched at all.
    SpawnFailed,
    /// The action command ran but did not succeed; `code` is its exit
    /// status, or `None` when it was terminated by a signal.
    NonZeroExit { code: Option<i32> },
}

/// The three actions a user can request on a package.
#[derive(Clone, Copy, Debug, PartialEq, Eq, Structural)]
pub enum ActionKind {
    Install,
    Remove,
    Update,
}

/// The outcome reports success: the process ran to completion and exited
/// with status zero.
pub open spec fn outcome_succeeded(outcome: CommandOutcome) -> bool {
    outcome matches CommandOutcome::Exited { code: Some(0i32) }
}

/// Interprets the outcome of a package's check command: installed exactly
/// when the probe process exited with status zero; any non-zero exit,
/// signal death or spawn failure counts as not installed.
pub fn is_installed(outcome: &CommandOutcome) -> (res: bool)
    ensures
        res == outcome_succeeded(*outcome),
{
    match outcome {
        CommandOutcome::Exited { code: Some(c) } => *c == 0,
        CommandOutcome::Exited { code: None } => false,
        CommandOutcome::SpawnFailed => false,
    }
}

/// What an action command's outcome means: `Ok` exactly when the process
/// exited with status zero; a spawn failure maps to `SpawnFailed`; any
/// other completion maps to `NonZeroExit` carrying the observed status.
pub open spec fn spec_action_result(outcome: CommandOutcome) -> Result<(), ActionError> {
    match outcome {
        CommandOutcome::Exited { code } => if code == Some(0i32) {
            Ok(())
        } else {
            Err(ActionError::NonZeroExit { code })
        },
        CommandOutcome::SpawnFailed => Err(ActionError::SpawnFailed),
    }
}

/// Interprets the outcome of an action command: `Ok` exactly when the
/// process exited with status zero; a spawn failure is reported as
/// `SpawnFailed`, never as success; any other completion is reported as
/// `NonZeroExit` carrying the exit status that was observed.
pub fn run_action_result(outcome: &CommandOutcome) -> (res: Result<(), ActionError>)
    ensures
        res == spec_action_result(*outcome),
        res is Ok <==> outcome_succeeded(*outcome),
{
    match outcome {
        CommandOutcome::Exited { code: Some(c) } => {
            if *c == 0 {
                Ok(())
            } else {
                Err(ActionError::NonZeroExit { code: Some(*c) })
            }
        },
        CommandOutcome::Exited { code: None } => Err(
            ActionError::NonZeroExit { code: Option::None },
        ),
        CommandOutcome::SpawnFailed => Err(ActionError::SpawnFailed),
    }
}

/// An action is offered only when it makes sense for the current install
/// status: install when not installed, remove and update when installed.
pub open spec fn spec_action_allowed(kind: ActionKind, installed: bool) -> bool {
    match kind {
        ActionKind::Install => !installed,
        ActionKind::Remove => installed,
        ActionKind::Update => installed,
    }
}

/// Whether the requested action may run, given the package's current
/// install status.
pub fn action_allowed(kind: ActionKind, installed: bool) -> (res: bool)
    ensures
        res == spec_action_allowed(kind, installed),
{
    match kind {
        ActionKind::Install => !installed,
        ActionKind::Remove => installed,
        ActionKind::Update => installed,
    }
}

/// The command line of `p` that the given action runs.
pub open spec fn spec_action_command(p: Package, kind: ActionKind) -> Seq<char> {
    match kind {
        ActionKind::Install => p.install_command@,
        ActionKind::Remove => p.remove_command@,
        ActionKind::Update => p.update_command@,
    }
}

/// Selects the command line of `p` that the given action runs.
pub fn action_command<'a>(p: &'a Package, kind: ActionKind) -> (res: &'a String)
    ensures
        res@ == spec_action_command(*p, kind),
{
    match kind {
        ActionKind::Install => &p.install_command,
        ActionKind::Remove => &p.remove_command,
        ActionKind::Update => &p.update_command,
    }
}

} // verus!
