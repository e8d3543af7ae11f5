//! "Reset cache and reload": reads each file's comment and in/out points from the file again,
//! replacing what the folder's file list remembered. No options.

use vstd::prelude::*;

verus! {

/// The Fluent message id of the action's name.
pub fn label() -> (id: &'static str)
    ensures
        id@ == "batch-action-reload-files"@,
{
    "batch-action-reload-files"
}

} // verus!
