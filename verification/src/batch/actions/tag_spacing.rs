//! "Apply tag spacing": renames each file to the tag spacing chosen in the settings, with or
//! without a space after each tag (`Food. Goat. clip.mp4` / `Food.Goat.clip.mp4`).

use vstd::prelude::*;

verus! {

/// The action's name, not translated.
pub const LABEL: &'static str = "Apply tag spacing";

} // verus!
