//! The file the file handler has open.

use vstd::prelude::*;

verus! {

/// Which file is open, if any.
#[derive(Debug, Clone)]
pub struct FileHandlerState {
    current_file: Option<String>,
}

impl Default for FileHandlerState {
    /// No file open.
    fn default() -> (state: Self)
        ensures
            state.current_file_spec() is None,
    {
        FileHandlerState { current_file: None }
    }
}

impl FileHandlerState {
    /// The path of the open file, if any.
    pub closed spec fn current_file_spec(&self) -> Option<String> {
        self.current_file
    }

    /// Opens the file at `path`: it becomes the open file, whatever was open before.
    pub fn open_file(&mut self, path: String)
        ensures
            final(self).current_file_spec() == Some(path),
    {
        self.current_file = Some(path);
    }

    /// The path of the open file, if any.
    pub fn current_file(&self) -> (file: Option<&String>)
        ensures
            match file {
                Some(f) => self.current_file_spec() == Some(*f),
                None => self.current_file_spec() is None,
            },
    {
        self.current_file.as_ref()
    }
}

} // verus!
