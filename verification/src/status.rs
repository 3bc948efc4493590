//! Window status updates: which status a hook notification sets.

use vstd::prelude::*;

verus! {

/// The status a hook asks the window to show.
#[derive(Clone, Copy, Debug, PartialEq, Eq, Structural)]
pub enum SetWindowStatusCommand {
    /// The agent is processing.
    Working,
    /// The agent needs user input; clears itself when the window gains
    /// focus.
    Waiting,
    /// The agent finished; clears itself when the window gains focus.
    Done,
    /// Remove the status.
    Clear,
}

/// How a status command is applied to the window.
#[derive(Clone, Copy, Debug, PartialEq, Eq, Structural)]
pub enum StatusAction {
    /// Show the status icon.
    Show,
    /// Show the status icon and clear it on the next focus.
    ShowWithAutoClear,
    /// Remove the status icon.
    Unset,
}

/// An idle-prompt notification must not downgrade a done checkmark to a
/// waiting bubble: `Waiting` is skipped exactly for that notification.
pub fn should_skip_status_update(
    cmd: &SetWindowStatusCommand,
    notification_type: Option<&str>,
) -> (r: bool)
    ensures
        r == (cmd is Waiting && (notification_type matches Some(t) && t@ == "idle_prompt"@)),
{
    match (cmd, notification_type) {
        (SetWindowStatusCommand::Waiting, Some(t)) => crate::strutil::str_eq(t, "idle_prompt"),
        _ => false,
    }
}

/// The action each status command performs: waiting and done statuses
/// clear themselves on focus, working does not, and clear unsets.
pub fn status_action(cmd: &SetWindowStatusCommand) -> (r: StatusAction)
    ensures
        cmd is Working ==> r == StatusAction::Show,
        (cmd is Waiting || cmd is Done) ==> r == StatusAction::ShowWithAutoClear,
        cmd is Clear ==> r == StatusAction::Unset,
{
    match cmd {
        SetWindowStatusCommand::Working => StatusAction::Show,
        SetWindowStatusCommand::Waiting => StatusAction::ShowWithAutoClear,
        SetWindowStatusCommand::Done => StatusAction::ShowWithAutoClear,
        SetWindowStatusCommand::Clear => StatusAction::Unset,
    }
}

} // verus!
