//! The batch actions. Each action has a module of its own with its name and options; this
//! module lists them, says what each would do with its options now, and dispatches their
//! messages.

pub mod ai_summary;
pub mod describe_ai;
pub mod fix_tags;
pub mod generate_subtitles;
pub mod markers_comment;
pub mod move_comments;
pub mod move_in_out;
pub mod reload_files;
pub mod tag_commented;
pub mod tag_spacing;

use vstd::prelude::*;

use super::state::ItemStatus;
use crate::text::{counted, counted_string};

verus! {

/// Where a file's comment is kept.
#[derive(Debug, Clone, Copy, PartialEq, Eq, Structural)]
pub enum CommentStorage {
    /// Inside the video (XMP), where Premiere Pro shows it.
    InVideo,
    /// In a `.comment.txt` next to the video.
    TextFile,
}

/// Where a file's in/out points are kept.
#[derive(Debug, Clone, Copy, PartialEq, Eq, Structural)]
pub enum InOutStorage {
    /// Inside the video, as a marker Premiere Pro turns into a subclip.
    InVideo,
    /// In the file name (`in_00_01_05`, `out_00_02_10`).
    FileName,
}

/// Where the settings keep comments and in/out points.
#[derive(Debug, Clone, Copy, PartialEq, Eq, Structural)]
pub struct MetadataStorage {
    pub comment: CommentStorage,
    pub in_out: InOutStorage,
}

/// The settings the actions read when they are started.
#[derive(Debug, Clone, Copy, PartialEq, Eq, Structural)]
pub struct Settings {
    /// Whether a "Commented" tag is turned on (under any name).
    pub commented_tag_on: bool,
    /// The language of AI descriptions: its index in the settings' list of languages.
    pub summary_language: u32,
}

/// An entry of the action list.
#[derive(Debug, Clone, Copy, PartialEq, Eq, Structural)]
pub enum Action {
    MoveComments,
    MoveInOut,
    TagCommented,
    FixTags,
    RespaceTags,
    ReloadFiles,
    DescribeAi,
}

/// The name of an action: a Fluent message id for the app to look up, or text as it is shown.
#[derive(Debug, Clone, Copy, PartialEq, Eq)]
pub enum Label {
    Message(&'static str),
    Text(&'static str),
}

/// The name of `action`: whether it is a message id, and its characters.
pub open spec fn action_label(action: Action) -> (bool, Seq<char>) {
    match action {
        Action::MoveComments => (true, "batch-action-move-comments"@),
        Action::MoveInOut => (true, "batch-action-move-in-out"@),
        Action::TagCommented => (true, "batch-action-tag-commented"@),
        Action::FixTags => (true, "batch-action-fix-tags"@),
        Action::RespaceTags => (false, "Apply tag spacing"@),
        Action::ReloadFiles => (true, "batch-action-reload-files"@),
        Action::DescribeAi => (false, "Describe with AI"@),
    }
}

impl Action {
    /// Every action, in list order.
    pub const ALL: [Action; 7] = [
        Action::MoveComments,
        Action::MoveInOut,
        Action::TagCommented,
        Action::FixTags,
        Action::RespaceTags,
        Action::ReloadFiles,
        Action::DescribeAi,
    ];

    pub fn label(self) -> (label: Label)
        ensures
            match label {
                Label::Message(id) => action_label(self) == (true, id@),
                Label::Text(text) => action_label(self) == (false, text@),
            },
    {
        match self {
            Action::MoveComments => Label::Message(move_comments::label()),
            Action::MoveInOut => Label::Message(move_in_out::label()),
            Action::TagCommented => Label::Message(tag_commented::label()),
            Action::FixTags => Label::Message(fix_tags::label()),
            Action::RespaceTags => Label::Text(tag_spacing::LABEL),
            Action::ReloadFiles => Label::Message(reload_files::label()),
            Action::DescribeAi => Label::Text(describe_ai::LABEL),
        }
    }
}

/// What a job does to each file, with the options it was started with.
#[derive(Debug, Clone, Copy, PartialEq, Eq, Structural)]
pub enum Operation {
    MoveComments(CommentStorage),
    MoveInOut(InOutStorage),
    TagCommented,
    FixTags,
    /// Rename files to the tag spacing chosen in the settings.
    RespaceTags,
    ReloadFiles,
    /// Describe each video with AI.
    DescribeAi(describe_ai::Run),
}

/// The action an operation belongs to.
pub open spec fn action_of(operation: Operation) -> Action {
    match operation {
        Operation::MoveComments(_) => Action::MoveComments,
        Operation::MoveInOut(_) => Action::MoveInOut,
        Operation::TagCommented => Action::TagCommented,
        Operation::FixTags => Action::FixTags,
        Operation::RespaceTags => Action::RespaceTags,
        Operation::ReloadFiles => Action::ReloadFiles,
        Operation::DescribeAi(_) => Action::DescribeAi,
    }
}

impl Operation {
    /// The action this operation belongs to.
    pub fn action(&self) -> (action: Action)
        ensures
            action == action_of(*self),
    {
        match self {
            Operation::MoveComments(_) => Action::MoveComments,
            Operation::MoveInOut(_) => Action::MoveInOut,
            Operation::TagCommented => Action::TagCommented,
            Operation::FixTags => Action::FixTags,
            Operation::RespaceTags => Action::RespaceTags,
            Operation::ReloadFiles => Action::ReloadFiles,
            Operation::DescribeAi(_) => Action::DescribeAi,
        }
    }
}

/// A message of one action's panel.
#[derive(Debug, Clone)]
pub enum ActionMessage {
    MoveComments(move_comments::Message),
    MoveInOut(move_in_out::Message),
    DescribeAi(describe_ai::Message),
    /// Open the settings window, where an action's global settings live (e.g. the commented
    /// tag). Handled by the app, which owns the windows.
    OpenSettings,
    /// Open the settings window at its AI section.
    OpenAiSettings,
    /// Have the settings read whether an API key is saved; the answer comes back as
    /// `DescribeAi(KeyState)`. Handled by the app.
    ReadKeyState,
}

impl ActionMessage {
    /// Whether it may change the options while a job runs: results of background reads.
    pub fn applies_while_running(&self) -> (applies: bool)
        ensures
            applies == (match self {
                ActionMessage::DescribeAi(describe_ai::Message::Probed(_)) => true,
                ActionMessage::DescribeAi(describe_ai::Message::KeyState(_)) => true,
                _ => false,
            }),
    {
        match self {
            ActionMessage::DescribeAi(describe_ai::Message::Probed(_)) => true,
            ActionMessage::DescribeAi(describe_ai::Message::KeyState(_)) => true,
            _ => false,
        }
    }
}

/// The options of every action, as a model.
pub struct ActionsView {
    pub move_comments: CommentStorage,
    pub move_in_out: InOutStorage,
    pub describe_ai: describe_ai::OptionsView,
}

/// The options a session starts with: the moves bring files in line with the storage the
/// settings chose; nothing is known of any video yet.
pub open spec fn initial_actions(storage: MetadataStorage) -> ActionsView {
    ActionsView {
        move_comments: storage.comment,
        move_in_out: storage.in_out,
        describe_ai: describe_ai::OptionsView {
            redo: false,
            probes: Map::empty(),
            probing: Set::empty(),
            key: None,
        },
    }
}

/// What `action` would do with the options `v` and `settings`; `None` when it cannot run.
pub open spec fn operation_of(v: ActionsView, action: Action, settings: Settings) -> Option<Operation> {
    match action {
        Action::MoveComments => Some(Operation::MoveComments(v.move_comments)),
        Action::MoveInOut => Some(Operation::MoveInOut(v.move_in_out)),
        Action::TagCommented => if settings.commented_tag_on {
            Some(Operation::TagCommented)
        } else {
            None
        },
        Action::FixTags => Some(Operation::FixTags),
        Action::RespaceTags => Some(Operation::RespaceTags),
        Action::ReloadFiles => Some(Operation::ReloadFiles),
        Action::DescribeAi => Some(
            Operation::DescribeAi(
                describe_ai::Run { language: settings.summary_language, redo: v.describe_ai.redo },
            ),
        ),
    }
}

/// The options after `prepare(operation)`: the move actions take its target.
pub open spec fn prepared(v: ActionsView, operation: Operation) -> ActionsView {
    match operation {
        Operation::MoveComments(to) => ActionsView { move_comments: to, ..v },
        Operation::MoveInOut(to) => ActionsView { move_in_out: to, ..v },
        _ => v,
    }
}

/// The options after `message`.
pub open spec fn actions_after(v: ActionsView, message: ActionMessage) -> ActionsView {
    match message {
        ActionMessage::MoveComments(move_comments::Message::SetTo(to)) => ActionsView {
            move_comments: to,
            ..v
        },
        ActionMessage::MoveInOut(move_in_out::Message::SetTo(to)) => ActionsView {
            move_in_out: to,
            ..v
        },
        ActionMessage::DescribeAi(describe_ai::Message::SetRedo(redo)) => ActionsView {
            describe_ai: describe_ai::OptionsView { redo, ..v.describe_ai },
            ..v
        },
        ActionMessage::DescribeAi(describe_ai::Message::Probed(results)) => ActionsView {
            describe_ai: describe_ai::with_probes(v.describe_ai, results@),
            ..v
        },
        ActionMessage::DescribeAi(describe_ai::Message::KeyState(state)) => ActionsView {
            describe_ai: describe_ai::OptionsView { key: Some(state), ..v.describe_ai },
            ..v
        },
        _ => v,
    }
}

/// The options of every action, kept while the user switches between them.
#[derive(Debug)]
pub struct Actions {
    move_comments: move_comments::Options,
    move_in_out: move_in_out::Options,
    describe_ai: describe_ai::Options,
}

impl View for Actions {
    type V = ActionsView;

    closed spec fn view(&self) -> ActionsView {
        ActionsView {
            move_comments: self.move_comments.to,
            move_in_out: self.move_in_out.to,
            describe_ai: self.describe_ai@,
        }
    }
}

impl Actions {
    /// The options a session starts with: the moves bring files in line with the storage the
    /// settings chose.
    pub fn new(storage: MetadataStorage) -> (actions: Self)
        ensures
            actions@ == initial_actions(storage),
    {
        Actions {
            move_comments: move_comments::Options::new(storage.comment),
            move_in_out: move_in_out::Options::new(storage.in_out),
            describe_ai: describe_ai::Options::new(),
        }
    }

    pub fn update(&mut self, message: ActionMessage)
        ensures
            final(self)@ == actions_after(old(self)@, message),
    {
        match message {
            ActionMessage::MoveComments(message) => self.move_comments.update(message),
            ActionMessage::MoveInOut(message) => self.move_in_out.update(message),
            ActionMessage::DescribeAi(message) => self.describe_ai.update(message),
            ActionMessage::OpenSettings | ActionMessage::OpenAiSettings
            | ActionMessage::ReadKeyState => {},
        }
    }

    /// The options of "Describe with AI".
    pub fn describe_ai(&self) -> (options: &describe_ai::Options)
        ensures
            options@ == self@.describe_ai,
    {
        &self.describe_ai
    }

    /// The options of "Describe with AI", to take what is read about the checked videos.
    pub fn describe_ai_mut(&mut self) -> (options: &mut describe_ai::Options)
        ensures
            options@ == old(self)@.describe_ai,
            final(self)@ == (ActionsView { describe_ai: final(options)@, ..old(self)@ }),
    {
        &mut self.describe_ai
    }

    /// Set the options of `operation`'s action to do what it does.
    pub fn prepare(&mut self, operation: Operation)
        ensures
            final(self)@ == prepared(old(self)@, operation),
    {
        match operation {
            Operation::MoveComments(to) => self.move_comments.prepare(to),
            Operation::MoveInOut(to) => self.move_in_out.prepare(to),
            Operation::TagCommented | Operation::FixTags | Operation::RespaceTags
            | Operation::ReloadFiles | Operation::DescribeAi(_) => {},
        }
    }

    /// What `action` would do with its options and `settings` now; `None` when it cannot run.
    pub fn operation(&self, action: Action, settings: Settings) -> (operation: Option<Operation>)
        ensures
            operation == operation_of(self@, action, settings),
    {
        match action {
            Action::MoveComments => Some(self.move_comments.operation()),
            Action::MoveInOut => Some(self.move_in_out.operation()),
            Action::TagCommented => tag_commented::operation(settings.commented_tag_on),
            Action::FixTags => Some(Operation::FixTags),
            Action::RespaceTags => Some(Operation::RespaceTags),
            Action::ReloadFiles => Some(Operation::ReloadFiles),
            Action::DescribeAi => Some(self.describe_ai.operation(settings.summary_language)),
        }
    }

    /// The files a job of `action` runs over: the checked ones, or for "Describe with AI" only
    /// the videos it will send.
    pub fn job_files(&self, action: Action, checked: &[describe_ai::CheckedFile]) -> (ids: Vec<u64>)
        ensures
            ids@ == (if action == Action::DescribeAi {
                describe_ai::ids_to_send(self@.describe_ai, checked@)
            } else {
                checked@.map_values(|f: describe_ai::CheckedFile| f.id)
            }),
    {
        if action == Action::DescribeAi {
            return self.describe_ai.files_to_send(checked);
        }
        let mut ids: Vec<u64> = Vec::new();
        let mut i: usize = 0;
        while i < checked.len()
            invariant
                i <= checked@.len(),
                ids@ == checked@.take(i as int).map_values(|f: describe_ai::CheckedFile| f.id),
            decreases checked@.len() - i,
        {
            ids.push(checked[i].id);
            proof {
                assert(checked@.take(i + 1).map_values(|f: describe_ai::CheckedFile| f.id)
                    =~= checked@.take(i as int).map_values(|f: describe_ai::CheckedFile| f.id).push(checked@[i as int].id));
            }
            i = i + 1;
        }
        proof {
            assert(checked@.take(checked@.len() as int) =~= checked@);
        }
        ids
    }
}

/// "5 files" / "1 file".
pub open spec fn files_text(n: nat) -> Seq<char> {
    counted(n, "file"@, "files"@)
}

/// "5 files" / "1 file".
pub fn files(n: usize) -> (s: String)
    ensures
        s@ == files_text(n as nat),
{
    counted_string(n, "file", "files")
}

/// How an action's change to one file went (the new path, when it moved, is the app's).
#[derive(Debug, Clone, Copy, PartialEq, Eq, Structural)]
pub enum MoveOutcome {
    /// The file already was as the action wants it.
    NothingToMove,
    Moved,
    Failed,
}

/// The job's record of a file an action changed (done), failed on or left alone (skipped).
pub fn move_status(outcome: MoveOutcome) -> (status: ItemStatus)
    ensures
        status == (match outcome {
            MoveOutcome::NothingToMove => ItemStatus::Skipped,
            MoveOutcome::Moved => ItemStatus::Done,
            MoveOutcome::Failed => ItemStatus::Failed,
        }),
{
    match outcome {
        MoveOutcome::NothingToMove => ItemStatus::Skipped,
        MoveOutcome::Moved => ItemStatus::Done,
        MoveOutcome::Failed => ItemStatus::Failed,
    }
}

} // verus!
