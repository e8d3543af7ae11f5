//! "Markers ⇄ comment": turns the timecoded lines of a file's comment (`03:24 — shaky`) into
//! clip markers, or copies its markers into the comment as such lines. Its one option is the
//! direction.

use vstd::prelude::*;

verus! {

/// The action's name, not translated.
pub const LABEL: &'static str = "Markers ⇄ comment";

/// Which way the lines go.
#[derive(Debug, Clone, Copy, PartialEq, Eq, Structural)]
pub enum Direction {
    /// Timecoded comment lines become markers and leave the comment.
    CommentToMarkers,
    /// Markers are copied into the comment as lines; they stay in the video.
    MarkersToComment,
}

#[derive(Debug, Clone, Copy, PartialEq, Eq, Structural)]
pub enum Message {
    SetDirection(Direction),
}

/// The action's options.
#[derive(Debug, Clone, Copy, PartialEq, Eq, Structural)]
pub struct Options {
    pub direction: Direction,
}

impl Default for Options {
    /// Comment lines into markers.
    fn default() -> (options: Self)
        ensures
            options.direction == Direction::CommentToMarkers,
    {
        Options { direction: Direction::CommentToMarkers }
    }
}

impl Options {
    pub fn update(&mut self, message: Message)
        ensures
            match message {
                Message::SetDirection(d) => final(self).direction == d,
            },
    {
        match message {
            Message::SetDirection(direction) => self.direction = direction,
        }
    }

    /// What a job does to each file: move the lines the chosen way.
    pub fn operation(&self) -> (direction: Direction)
        ensures
            direction == self.direction,
    {
        self.direction
    }
}

} // verus!
