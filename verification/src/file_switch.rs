//! Moving from one file to the next: the file you leave is saved (renamed with its tags) before
//! the next one's video opens. A video that is playing or loading holds its file open, so then
//! the save waits until the video has unloaded. A batch job that starts while a video plays
//! waits for the unload the same way. `S` is what is saved of a file (its tags and name).

use vstd::prelude::*;

verus! {

/// What to do when a file was opened.
#[derive(Debug, Clone, PartialEq, Eq)]
pub enum Opened<S> {
    /// The same file again, with nothing to save: nothing.
    Nothing,
    /// Open the new file's video.
    OpenMedia,
    /// Save the file left (`id`, as `saved`), then open the new file's video unless it is the
    /// same file again (`open_media`).
    SaveLeft { id: u64, saved: S, open_media: bool },
    /// Unload the playing video first; the save waits for [`FileSwitch::media_unloaded`].
    UnloadFirst,
}

/// What to do when the video unloaded.
#[derive(Debug, Clone, PartialEq, Eq)]
pub enum Unloaded<S> {
    /// Start the batch job that waited for the unload.
    RunBatch,
    /// Save the file left (`id`, as `saved`), then open the selected file's video.
    SaveLeft { id: u64, saved: S },
    /// Nothing waited.
    Nothing,
}

/// The file switch, as a model: the save waiting for the unload, and whether a batch job
/// waits for it.
pub struct FileSwitchView<S> {
    pub pending: Option<(u64, S)>,
    pub batch_waits: bool,
}

/// The save waiting for the video to unload, and the batch job waiting for it.
#[derive(Debug, Clone)]
pub struct FileSwitch<S> {
    pending: Option<(u64, S)>,
    batch_waits: bool,
}

impl<S> View for FileSwitch<S> {
    type V = FileSwitchView<S>;

    closed spec fn view(&self) -> FileSwitchView<S> {
        FileSwitchView { pending: self.pending, batch_waits: self.batch_waits }
    }
}

/// After a file was opened: `left` is the file left with what to save of it (`None` when no
/// file was open), `same_file` when the same file was opened again (a refresh after an undo
/// or a rename in place), `needs_unload` when a video holds its file open.
pub open spec fn opened<S>(v: FileSwitchView<S>, left: Option<(u64, S)>, same_file: bool, needs_unload: bool) -> (FileSwitchView<S>, Opened<S>) {
    match left {
        None => (
            FileSwitchView { pending: None, ..v },
            if same_file { Opened::Nothing } else { Opened::OpenMedia },
        ),
        Some((id, saved)) => if needs_unload {
            (FileSwitchView { pending: Some((id, saved)), ..v }, Opened::UnloadFirst)
        } else {
            (v, Opened::SaveLeft { id, saved, open_media: !same_file })
        },
    }
}

/// After the video unloaded: the batch job that waited starts; else the save that waited is
/// done, once.
pub open spec fn unloaded<S>(v: FileSwitchView<S>) -> (FileSwitchView<S>, Unloaded<S>) {
    if v.batch_waits {
        (FileSwitchView { batch_waits: false, ..v }, Unloaded::RunBatch)
    } else {
        match v.pending {
            Some((id, saved)) => (FileSwitchView { pending: None, ..v }, Unloaded::SaveLeft { id, saved }),
            None => (v, Unloaded::Nothing),
        }
    }
}

impl<S> FileSwitch<S> {
    /// Nothing waits.
    pub fn new() -> (switch: Self)
        ensures
            switch@.pending is None,
            !switch@.batch_waits,
    {
        FileSwitch { pending: None, batch_waits: false }
    }

    /// Whether a save waits for the video to unload.
    pub fn has_pending_save(&self) -> (pending: bool)
        ensures
            pending == self@.pending is Some,
    {
        self.pending.is_some()
    }

    /// A file was opened (see [`opened`]).
    pub fn file_opened(&mut self, left: Option<(u64, S)>, same_file: bool, needs_unload: bool) -> (action: Opened<S>)
        ensures
            (final(self)@, action) == opened(old(self)@, left, same_file, needs_unload),
    {
        match left {
            None => {
                self.pending = None;
                if same_file { Opened::Nothing } else { Opened::OpenMedia }
            },
            Some((id, saved)) => if needs_unload {
                self.pending = Some((id, saved));
                Opened::UnloadFirst
            } else {
                Opened::SaveLeft { id, saved, open_media: !same_file }
            },
        }
    }

    /// A batch job started while a video held its file: it runs once the video unloaded.
    pub fn batch_waits_for_unload(&mut self)
        ensures
            final(self)@ == (FileSwitchView { batch_waits: true, ..old(self)@ }),
    {
        self.batch_waits = true;
    }

    /// The batch job starts now: before it, the save that waited is done (`Some`).
    pub fn take_pending(&mut self) -> (save: Option<(u64, S)>)
        ensures
            save == old(self)@.pending,
            final(self)@ == (FileSwitchView { pending: None, ..old(self)@ }),
    {
        self.pending.take()
    }

    /// Another folder is being opened: the save that waited is dropped with it.
    pub fn forget_pending(&mut self)
        ensures
            final(self)@ == (FileSwitchView { pending: None, ..old(self)@ }),
    {
        self.pending = None;
    }

    /// The video unloaded (see [`unloaded`]).
    pub fn media_unloaded(&mut self) -> (action: Unloaded<S>)
        ensures
            (final(self)@, action) == unloaded(old(self)@),
    {
        if self.batch_waits {
            self.batch_waits = false;
            return Unloaded::RunBatch;
        }
        match self.pending.take() {
            Some((id, saved)) => Unloaded::SaveLeft { id, saved },
            None => Unloaded::Nothing,
        }
    }
}

/// The file left is saved: at once when no video holds it, else as soon as the video has
/// unloaded.
pub proof fn law_the_file_left_is_saved<S>(v: FileSwitchView<S>, id: u64, saved: S, same_file: bool, needs_unload: bool)
    requires
        !v.batch_waits,
    ensures
        ({
            let (after, action) = opened(v, Some((id, saved)), same_file, needs_unload);
            if needs_unload {
                action == Opened::<S>::UnloadFirst && unloaded(after).1 == (Unloaded::SaveLeft { id, saved })
            } else {
                action == (Opened::SaveLeft { id, saved, open_media: !same_file })
            }
        }),
{
}

/// A save that waited is done once: a second unload finds nothing to save.
pub proof fn law_a_waiting_save_is_done_once<S>(v: FileSwitchView<S>)
    requires
        !v.batch_waits,
    ensures
        unloaded(unloaded(v).0).1 == Unloaded::<S>::Nothing,
{
}

} // verus!
