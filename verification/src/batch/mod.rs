//! Batch mode: actions over the files checked in the folder list.
//!
//! Every action runs through the same job: one file at a time, with progress, cancel between
//! files, and an outcome per file shown in the folder list. The files themselves are known here
//! by their stable ids; what an action does to one file is the app's part.

pub mod actions;
pub mod messages;
pub mod panel_text;
pub mod laws;
pub mod state;

pub use actions::{Action, ActionMessage, Actions, Operation};
pub use messages::Message;
pub use state::{BatchState, ItemStatus, Progress};
