//! Messages for batch mode.

use vstd::prelude::*;

use super::actions::{Action, ActionMessage, Operation};

verus! {

/// Batch mode messages: from the batch panel, and from the folder list via the workspace.
#[derive(Debug, Clone)]
pub enum Message {
    /// Show the batch panel and the check boxes in the folder list (true) or the open file (false).
    SetActive(bool),
    /// Pick an action in the action list.
    SelectAction(Action),
    /// A change in the selected action's options.
    Action(ActionMessage),
    /// Enter batch mode with these files checked and the action set up to do `operation`
    /// (from the settings window, after a storage change).
    Prepare { operation: Operation, files: Vec<u64> },
    /// Check or uncheck one file.
    Toggle(u64),
    /// Check these files (the listed ones), keeping the other checks.
    CheckAll(Vec<u64>),
    /// Uncheck every file.
    CheckNone,
    /// Flip the check of each of these files (the listed ones).
    Invert(Vec<u64>),
    /// Run the selected action on the checked files. Started by the workspace, which owns them.
    Run,
    /// Stop the running job after the file in progress.
    Cancel,
    /// Dismiss the report of a finished job, with the outcomes shown in the list.
    CloseReport,
    /// Open the log, which says why each failed file failed. Handled by the workspace.
    OpenLog,
}

} // verus!
