//! "Fix tags by priority": puts the tags in each file's name in the folder's tag order, the
//! order of the tag panel. No options.

use vstd::prelude::*;

verus! {

/// The Fluent message id of the action's name; the app looks its text up in the user's
/// language.
pub fn label() -> (id: &'static str)
    ensures
        id@ == "batch-action-fix-tags"@,
{
    "batch-action-fix-tags"
}

} // verus!
