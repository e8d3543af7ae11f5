//! "Tag commented videos": puts the commented tag (see the settings) on each file with a
//! comment and takes it off each file without one. The tag is named and turned on or off in the
//! settings, so the action runs only while it is on.

use vstd::prelude::*;

use super::Operation;

verus! {

/// The Fluent message id of the action's name.
pub fn label() -> (id: &'static str)
    ensures
        id@ == "batch-action-tag-commented"@,
{
    "batch-action-tag-commented"
}

/// What the action does, when the commented tag is turned on in the settings.
pub fn operation(commented_tag_on: bool) -> (operation: Option<Operation>)
    ensures
        operation == (if commented_tag_on { Some(Operation::TagCommented) } else { None::<Operation> }),
{
    if commented_tag_on {
        Some(Operation::TagCommented)
    } else {
        None
    }
}

} // verus!
