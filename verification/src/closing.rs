//! Closing the main window safely. A batch job may be writing a file: it is stopped after that
//! file, then the window closes. A video that is open must be unloaded first (closing the
//! player while it runs may crash it). The app does the steps and reports the events.

use vstd::prelude::*;

verus! {

/// What the app is to do for the close.
#[derive(Debug, Clone, Copy, PartialEq, Eq, Structural)]
pub enum CloseAction {
    /// Close this window now.
    CloseWindow(u64),
    /// Stop the running batch job after the file in work.
    CancelBatch,
    /// Unload the open video.
    UnloadMedia,
    /// Nothing to do.
    Nothing,
}

/// The close waiting for a job to stop or a video to unload: the window to close, if any.
#[derive(Debug, Clone, Copy, Default)]
pub struct CloseState {
    pending: Option<u64>,
}

impl View for CloseState {
    type V = Option<u64>;

    closed spec fn view(&self) -> Option<u64> {
        self.pending
    }
}

/// After a request to close `window`, with `pending` the close already waiting: a running job
/// is stopped first, then a video is unloaded; with neither, the window closes at once and
/// what was waiting is left as it was.
pub open spec fn close_requested(pending: Option<u64>, window: u64, batch_running: bool, needs_unload: bool) -> (Option<u64>, CloseAction) {
    if batch_running {
        (Some(window), CloseAction::CancelBatch)
    } else if needs_unload {
        (Some(window), CloseAction::UnloadMedia)
    } else {
        (pending, CloseAction::CloseWindow(window))
    }
}

/// After the batch job ended, with a close waiting: unload the video first if one is open
/// (the job reopens the selected file), else close.
pub open spec fn batch_finished(pending: Option<u64>, needs_unload: bool) -> (Option<u64>, CloseAction) {
    match pending {
        None => (None, CloseAction::Nothing),
        Some(w) => if needs_unload {
            (Some(w), CloseAction::UnloadMedia)
        } else {
            (None, CloseAction::CloseWindow(w))
        },
    }
}

/// After the video unloaded, with a close waiting: close.
pub open spec fn media_unloaded(pending: Option<u64>) -> (Option<u64>, CloseAction) {
    match pending {
        None => (None, CloseAction::Nothing),
        Some(w) => (None, CloseAction::CloseWindow(w)),
    }
}

impl CloseState {
    /// No close waiting.
    pub fn new() -> (state: Self)
        ensures
            state@ is None,
    {
        CloseState { pending: None }
    }

    /// Whether a close is waiting.
    pub fn is_pending(&self) -> (pending: bool)
        ensures
            pending == self@ is Some,
    {
        self.pending.is_some()
    }

    /// The user asked to close `window`.
    pub fn close_requested(&mut self, window: u64, batch_running: bool, needs_unload: bool) -> (action: CloseAction)
        ensures
            (final(self)@, action) == close_requested(old(self)@, window, batch_running, needs_unload),
    {
        if batch_running {
            self.pending = Some(window);
            CloseAction::CancelBatch
        } else if needs_unload {
            self.pending = Some(window);
            CloseAction::UnloadMedia
        } else {
            CloseAction::CloseWindow(window)
        }
    }

    /// The batch job ended; `needs_unload` when a video is open.
    pub fn batch_finished(&mut self, needs_unload: bool) -> (action: CloseAction)
        ensures
            (final(self)@, action) == batch_finished(old(self)@, needs_unload),
    {
        match self.pending {
            None => CloseAction::Nothing,
            Some(w) => if needs_unload {
                CloseAction::UnloadMedia
            } else {
                self.pending = None;
                CloseAction::CloseWindow(w)
            },
        }
    }

    /// The video unloaded.
    pub fn media_unloaded(&mut self) -> (action: CloseAction)
        ensures
            (final(self)@, action) == media_unloaded(old(self)@),
    {
        match self.pending {
            None => CloseAction::Nothing,
            Some(w) => {
                self.pending = None;
                CloseAction::CloseWindow(w)
            },
        }
    }
}

/// A close asked for while a job runs is not lost: once the job ended and any video
/// unloaded, the window closes.
pub proof fn law_a_close_waits_for_the_job_and_the_video(pending: Option<u64>, window: u64, needs_unload: bool)
    ensures
        ({
            let (p1, a1) = close_requested(pending, window, true, needs_unload);
            let (p2, a2) = batch_finished(p1, needs_unload);
            &&& a1 == CloseAction::CancelBatch
            &&& if needs_unload {
                a2 == CloseAction::UnloadMedia && media_unloaded(p2).1 == CloseAction::CloseWindow(window)
            } else {
                a2 == CloseAction::CloseWindow(window)
            }
        }),
{
}

/// A close never happens twice: after the window closes, nothing more is waiting.
pub proof fn law_the_window_closes_once(pending: Option<u64>, needs_unload: bool)
    ensures
        media_unloaded(media_unloaded(pending).0).1 == CloseAction::Nothing,
        batch_finished(pending, needs_unload).1 is CloseWindow ==> batch_finished(pending, needs_unload).0 is None,
{
}

} // verus!
