//! "Move in/out points": moves each file's in/out points between its name and an Adobe XMP
//! marker in the video. Comments stay where they are.

use vstd::prelude::*;

use super::{InOutStorage, Operation};

verus! {

/// The Fluent message id of the action's name.
pub fn label() -> (id: &'static str)
    ensures
        id@ == "batch-action-move-in-out"@,
{
    "batch-action-move-in-out"
}

#[derive(Debug, Clone, Copy, PartialEq, Eq, Structural)]
pub enum Message {
    /// Where the in/out points go.
    SetTo(InOutStorage),
}

/// Where the in/out points go; a move usually brings files in line with the storage chosen in the
/// settings, so that is where it starts.
#[derive(Debug, Clone, Copy, PartialEq, Eq, Structural)]
pub struct Options {
    pub to: InOutStorage,
}

impl Options {
    pub fn new(to: InOutStorage) -> (options: Self)
        ensures
            options.to == to,
    {
        Options { to }
    }

    pub fn update(&mut self, message: Message)
        ensures
            match message {
                Message::SetTo(to) => final(self).to == to,
            },
    {
        match message {
            Message::SetTo(to) => self.to = to,
        }
    }

    pub fn prepare(&mut self, to: InOutStorage)
        ensures
            final(self).to == to,
    {
        self.to = to;
    }

    pub fn operation(&self) -> (operation: Operation)
        ensures
            operation == Operation::MoveInOut(self.to),
    {
        Operation::MoveInOut(self.to)
    }
}

} // verus!
