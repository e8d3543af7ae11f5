//! The logic of frename, a tool that tags video clips through their file names and renames
//! them as you go: the keyboard shortcuts of its main window, the folder list (its filters,
//! rows and search), the tag grid and the marker list, the rename editor and the rules for
//! new names, the comment editor's AI description, the batch jobs over checked files and their
//! actions (with the frames sent for an AI description, turned upright), saving the file you
//! leave, closing the window safely, and demo mode's command line.

pub mod text;
pub mod demo;
pub mod batch;
pub mod tag_grid;
pub mod markers;
pub mod file_names;
pub mod folder;
pub mod drag_drop;
pub mod file_handler;
pub mod bundled_gstreamer;
pub mod workspace;
pub mod shortcuts;
pub mod file_workspace;
pub mod file_name_panel;
pub mod closing;
pub mod comment_loading;
pub mod file_switch;
pub mod frames;
