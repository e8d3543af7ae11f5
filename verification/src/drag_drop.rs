//! Files dropped onto the window: the last one is kept, and names the window.

use vstd::prelude::*;

verus! {

/// What the drag and drop feature holds.
#[derive(Debug, Clone)]
pub struct DragDropState {
    /// The path of the file dropped last, if any.
    pub dropped_file: Option<String>,
}

impl Default for DragDropState {
    /// Nothing dropped yet.
    fn default() -> (state: Self)
        ensures
            state.dropped_file is None,
    {
        DragDropState { dropped_file: None }
    }
}

impl DragDropState {
    /// A file was dropped onto the window: it replaces the one dropped before.
    pub fn handle_file_dropped(&mut self, path: String)
        ensures
            final(self).dropped_file == Some(path),
    {
        self.dropped_file = Some(path);
    }

    /// The window title: the path of the file dropped last, or the app's name.
    pub fn title(&self) -> (title: String)
        ensures
            title@ == (match self.dropped_file {
                Some(p) => p@,
                None => "frename"@,
            }),
    {
        match &self.dropped_file {
            Some(path) => path.clone(),
            None => {
                proof {
                    reveal_strlit("frename");
                }
                String::from_str("frename")
            },
        }
    }
}

} // verus!
