//! "Move comments": moves each file's comment between the video (XMP) and a text file next to
//! it. Tags and in/out points stay where they are.

use vstd::prelude::*;

use super::{CommentStorage, Operation};

verus! {

/// The Fluent message id of the action's name.
pub fn label() -> (id: &'static str)
    ensures
        id@ == "batch-action-move-comments"@,
{
    "batch-action-move-comments"
}

#[derive(Debug, Clone, Copy, PartialEq, Eq, Structural)]
pub enum Message {
    /// Where the comments go.
    SetTo(CommentStorage),
}

/// Where the comments go; a move usually brings files in line with the storage chosen in the
/// settings, so that is where it starts.
#[derive(Debug, Clone, Copy, PartialEq, Eq, Structural)]
pub struct Options {
    pub to: CommentStorage,
}

impl Options {
    pub fn new(to: CommentStorage) -> (options: Self)
        ensures
            options.to == to,
    {
        Options { to }
    }

    pub fn update(&mut self, message: Message)
        ensures
            match message {
                Message::SetTo(to) => final(self).to == to,
            },
    {
        match message {
            Message::SetTo(to) => self.to = to,
        }
    }

    pub fn prepare(&mut self, to: CommentStorage)
        ensures
            final(self).to == to,
    {
        self.to = to;
    }

    pub fn operation(&self) -> (operation: Operation)
        ensures
            operation == Operation::MoveComments(self.to),
    {
        Operation::MoveComments(self.to)
    }
}

} // verus!
