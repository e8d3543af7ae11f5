//! "Describe with AI": for each checked video, frames sampled every 2 s and its subtitles go to
//! Anthropic's model, and the summary and time-ranged segments it returns are written into the
//! AI block of the video's comment. The editor's own text is never touched.
//!
//! Before running, the panel shows what will be sent: clip lengths are read in the background
//! (see [`Options::missing_probes`]) and kept per file, and [`Options::plan`] sorts the checked
//! files into those sent and those skipped, and why.

use std::collections::{HashMap, HashSet};

use vstd::prelude::*;
use vstd::string::*;

use crate::text::{counted, counted_string, decimal, decimal_string, decimal_string_u64};

use super::Operation;
use crate::batch::state::ItemStatus;
use crate::batch::state::lemma_take_to_set_step;

verus! {

broadcast use vstd::std_specs::hash::group_hash_axioms;

/// The action's name, not translated.
pub const LABEL: &'static str = "Describe with AI";

/// Clips longer than this (30 minutes, in nanoseconds) are not described.
pub const MAX_DURATION_NS: u64 = 1_800_000_000_000;

/// Whether an Anthropic API key is saved, as the credential store says.
#[derive(Debug, Clone, Copy, PartialEq, Eq, Structural)]
pub enum KeyState {
    Missing,
    Saved,
    /// The system has no credential store to keep one in.
    Unavailable,
}

/// What the estimate needs to know about a clip before it runs.
#[derive(Debug, Clone, Copy, PartialEq, Eq, Structural)]
pub struct Probe {
    /// Length in nanoseconds; `None` when the clip could not be read in time.
    pub duration_ns: Option<u64>,
    /// Size of its `.srt` file, standing in for the subtitle text's length.
    pub subtitle_chars: usize,
}

/// What the job does to each file: the options it started with.
#[derive(Debug, Clone, Copy, PartialEq, Eq, Structural)]
pub struct Run {
    /// The language of the descriptions: its index in the settings' list of languages.
    pub language: u32,
    pub redo: bool,
}

#[derive(Debug, Clone)]
pub enum Message {
    /// Redo videos that already have an AI description.
    SetRedo(bool),
    /// Clip lengths read in the background.
    Probed(Vec<(u64, Probe)>),
    /// Whether an API key is saved, read in the background or after a change in the settings.
    KeyState(KeyState),
}

/// A checked file, as far as the plan needs to know it.
#[derive(Debug, Clone)]
pub struct CheckedFile {
    pub id: u64,
    pub path: String,
    pub is_video: bool,
    /// Its comment is still being read in the background.
    pub comment_loading: bool,
    /// Its comment already has an AI description.
    pub has_ai_block: bool,
    pub has_subtitles: bool,
}

/// The options and what is known of the checked videos, as a model.
pub struct OptionsView {
    pub redo: bool,
    pub probes: Map<u64, Probe>,
    pub probing: Set<u64>,
    pub key: Option<KeyState>,
}

/// The options of the action and what was read about the checked videos, kept while the
/// folder is open.
#[derive(Debug)]
pub struct Options {
    redo: bool,
    /// What is known about each checked video.
    probes: HashMap<u64, Probe>,
    /// Videos whose length is being read.
    probing: HashSet<u64>,
    /// `None` until read (only when the action is first shown: reading may unlock a keyring).
    key: Option<KeyState>,
}

/// The probes after taking in `results` in order: a later result for the same file wins,
/// and a file with a result is no longer being read.
pub open spec fn with_probes(v: OptionsView, results: Seq<(u64, Probe)>) -> OptionsView
    decreases results.len(),
{
    if results.len() == 0 {
        v
    } else {
        let before = with_probes(v, results.drop_last());
        let (id, probe) = results.last();
        OptionsView {
            probes: before.probes.insert(id, probe),
            probing: before.probing.remove(id),
            ..before
        }
    }
}

/// Whether a run sends `file`: a video whose comment is read, not described yet (unless
/// redoing), of known length no longer than [`MAX_DURATION_NS`].
pub open spec fn will_send(v: OptionsView, file: CheckedFile) -> bool {
    &&& file.is_video
    &&& !file.comment_loading
    &&& (v.redo || !file.has_ai_block)
    &&& v.probes.contains_key(file.id)
    &&& v.probes[file.id].duration_ns matches Some(d) && d <= MAX_DURATION_NS
}

/// What a run on the checked files would send, skip and wait for.
pub struct PlanView {
    pub videos: nat,
    pub described: nat,
    pub too_long: nat,
    pub not_videos: nat,
    pub unreadable: nat,
    pub no_subtitles: nat,
    pub estimating: bool,
    pub checked_videos: nat,
    pub probed: nat,
    /// The videos sent: their length and the size of their subtitles.
    pub sent: Seq<(u64, usize)>,
}

/// The plan for `files`, file by file in order.
pub open spec fn plan_of(v: OptionsView, files: Seq<CheckedFile>) -> PlanView
    decreases files.len(),
{
    if files.len() == 0 {
        PlanView {
            videos: 0,
            described: 0,
            too_long: 0,
            not_videos: 0,
            unreadable: 0,
            no_subtitles: 0,
            estimating: false,
            checked_videos: 0,
            probed: 0,
            sent: Seq::empty(),
        }
    } else {
        let p = plan_of(v, files.drop_last());
        let f = files.last();
        if !f.is_video {
            PlanView { not_videos: p.not_videos + 1, ..p }
        } else if f.comment_loading {
            PlanView { checked_videos: p.checked_videos + 1, estimating: true, ..p }
        } else if !v.redo && f.has_ai_block {
            PlanView { checked_videos: p.checked_videos + 1, described: p.described + 1, ..p }
        } else if !v.probes.contains_key(f.id) {
            PlanView { checked_videos: p.checked_videos + 1, estimating: true, ..p }
        } else {
            let probe = v.probes[f.id];
            match probe.duration_ns {
                None => PlanView {
                    checked_videos: p.checked_videos + 1,
                    probed: p.probed + 1,
                    unreadable: p.unreadable + 1,
                    ..p
                },
                Some(d) => if d > MAX_DURATION_NS {
                    PlanView {
                        checked_videos: p.checked_videos + 1,
                        probed: p.probed + 1,
                        too_long: p.too_long + 1,
                        ..p
                    }
                } else {
                    PlanView {
                        checked_videos: p.checked_videos + 1,
                        probed: p.probed + 1,
                        videos: p.videos + 1,
                        no_subtitles: p.no_subtitles + (if f.has_subtitles { 0nat } else { 1nat }),
                        sent: p.sent.push((d, probe.subtitle_chars)),
                        ..p
                    }
                },
            }
        }
    }
}

/// What a run on the checked files would do.
#[derive(Debug, Clone, PartialEq, Eq)]
pub struct Plan {
    /// Videos that will be sent.
    pub videos: usize,
    pub described: usize,
    pub too_long: usize,
    pub not_videos: usize,
    pub unreadable: usize,
    pub no_subtitles: usize,
    /// Some lengths or comments are still being read.
    pub estimating: bool,
    /// Checked videos, and those whose length is known, for the progress of the estimate.
    pub checked_videos: usize,
    pub probed: usize,
    /// Length (ns) and subtitle size of each video sent, in order, for the cost and time
    /// estimates.
    pub sent: Vec<(u64, usize)>,
}

impl Plan {
    pub open spec fn matches(self, p: PlanView) -> bool {
        &&& self.videos == p.videos
        &&& self.described == p.described
        &&& self.too_long == p.too_long
        &&& self.not_videos == p.not_videos
        &&& self.unreadable == p.unreadable
        &&& self.no_subtitles == p.no_subtitles
        &&& self.estimating == p.estimating
        &&& self.checked_videos == p.checked_videos
        &&& self.probed == p.probed
        &&& self.sent@ == p.sent
    }
}

/// The parts of a text joined with `sep` between each two.
pub open spec fn joined(parts: Seq<Seq<char>>, sep: Seq<char>) -> Seq<char>
    decreases parts.len(),
{
    if parts.len() == 0 {
        Seq::empty()
    } else if parts.len() == 1 {
        parts[0]
    } else {
        joined(parts.drop_last(), sep) + sep + parts.last()
    }
}

/// "3 photos", when there is any.
pub open spec fn skip_part(n: nat, one: Seq<char>, many: Seq<char>) -> Seq<Seq<char>> {
    if n > 0 { seq![counted(n, one, many)] } else { Seq::empty() }
}

/// What the plan skips and why, one part per reason that skips any file, in this order:
/// described, too long, not a video, unreadable.
pub open spec fn skipped_parts(p: Plan) -> Seq<Seq<char>> {
    skip_part(p.described as nat, "already described"@, "already described"@)
        + skip_part(p.too_long as nat, "over 30 min"@, "over 30 min"@)
        + skip_part(p.not_videos as nat, "photo"@, "photos"@)
        + skip_part(p.unreadable as nat, "unreadable"@, "unreadable"@)
}

/// `Skipped: 3 already described, 1 over 30 min, 200 photos.`; nothing when nothing is
/// skipped.
pub open spec fn skipped_text(p: Plan) -> Option<Seq<char>> {
    let parts = skipped_parts(p);
    if parts.len() == 0 {
        None
    } else {
        Some("Skipped: "@ + joined(parts, ", "@) + "."@)
    }
}

/// Adds "`n` `what`" to the skipped line being written, when `n` is not zero: after "Skipped: "
/// for the first part, after ", " for the others. Returns whether any part is written now.
fn add_skip_part(line: &mut String, any: bool, n: usize, one: &str, many: &str, parts: Ghost<Seq<Seq<char>>>) -> (any_now: bool)
    requires
        any == (parts@.len() > 0),
        any ==> old(line)@ == "Skipped: "@ + joined(parts@, ", "@),
    ensures
        any_now == ((parts@ + skip_part(n as nat, one@, many@)).len() > 0),
        any_now ==> final(line)@ == "Skipped: "@ + joined(parts@ + skip_part(n as nat, one@, many@), ", "@),
        !any_now ==> final(line)@ == old(line)@,
{
    let ghost next = parts@ + skip_part(n as nat, one@, many@);
    if n == 0 {
        assert(next =~= parts@);
        return any;
    }
    proof {
        reveal_strlit("Skipped: ");
        reveal_strlit(", ");
    }
    let part = counted_string(n, one, many);
    if any {
        line.append(", ");
        line.append(part.as_str());
        proof {
            assert(next.drop_last() =~= parts@);
            assert(final(line)@ =~= "Skipped: "@ + joined(next, ", "@)) by {
                assert(joined(next, ", "@) == joined(parts@, ", "@) + ", "@ + part@);
            }
        }
    } else {
        *line = String::from_str("Skipped: ");
        line.append(part.as_str());
        proof {
            assert(next =~= seq![part@]);
        }
    }
    true
}

impl Plan {
    /// The line that says what is skipped and why, if anything is.
    pub fn skipped_line(&self) -> (line: Option<String>)
        ensures
            match line {
                Some(l) => skipped_text(*self) == Some(l@),
                None => skipped_text(*self) is None,
            },
    {
        let mut line = String::new();
        let ghost mut parts: Seq<Seq<char>> = Seq::empty();
        let any = add_skip_part(&mut line, false, self.described, "already described", "already described", Ghost(parts));
        proof { parts = parts + skip_part(self.described as nat, "already described"@, "already described"@); }
        let any = add_skip_part(&mut line, any, self.too_long, "over 30 min", "over 30 min", Ghost(parts));
        proof { parts = parts + skip_part(self.too_long as nat, "over 30 min"@, "over 30 min"@); }
        let any = add_skip_part(&mut line, any, self.not_videos, "photo", "photos", Ghost(parts));
        proof { parts = parts + skip_part(self.not_videos as nat, "photo"@, "photos"@); }
        let any = add_skip_part(&mut line, any, self.unreadable, "unreadable", "unreadable", Ghost(parts));
        proof {
            parts = parts + skip_part(self.unreadable as nat, "unreadable"@, "unreadable"@);
            assert(parts =~= skipped_parts(*self));
            reveal_strlit(".");
        }
        if any {
            line.append(".");
            Some(line)
        } else {
            None
        }
    }
}

/// The ids of the files of `files` a run sends, in order.
pub open spec fn ids_to_send(v: OptionsView, files: Seq<CheckedFile>) -> Seq<u64>
    decreases files.len(),
{
    if files.len() == 0 {
        Seq::empty()
    } else {
        let before = ids_to_send(v, files.drop_last());
        if will_send(v, files.last()) {
            before.push(files.last().id)
        } else {
            before
        }
    }
}

/// The checked videos whose length is neither known nor being read, in order.
pub open spec fn missing_of(v: OptionsView, files: Seq<CheckedFile>) -> Seq<CheckedFile>
    decreases files.len(),
{
    if files.len() == 0 {
        Seq::empty()
    } else {
        let before = missing_of(v, files.drop_last());
        let f = files.last();
        if f.is_video && !v.probes.contains_key(f.id) && !v.probing.contains(f.id) {
            before.push(f)
        } else {
            before
        }
    }
}

impl View for Options {
    type V = OptionsView;

    closed spec fn view(&self) -> OptionsView {
        OptionsView { redo: self.redo, probes: self.probes@, probing: self.probing@, key: self.key }
    }
}

impl Options {
    /// No redo, nothing read yet.
    pub fn new() -> (options: Self)
        ensures
            !options@.redo,
            options@.probes == Map::<u64, Probe>::empty(),
            options@.probing == Set::<u64>::empty(),
            options@.key is None,
    {
        Options { redo: false, probes: HashMap::new(), probing: HashSet::new(), key: None }
    }

    pub fn update(&mut self, message: Message)
        ensures
            match message {
                Message::SetRedo(redo) => final(self)@ == OptionsView { redo, ..old(self)@ },
                Message::Probed(results) => final(self)@ == with_probes(old(self)@, results@),
                Message::KeyState(state) => final(self)@ == OptionsView {
                    key: Some(state),
                    ..old(self)@
                },
            },
    {
        match message {
            Message::SetRedo(redo) => self.redo = redo,
            Message::Probed(results) => {
                let ghost start = self@;
                let mut i: usize = 0;
                while i < results.len()
                    invariant
                        i <= results@.len(),
                        self@ == with_probes(start, results@.take(i as int)),
                    decreases results@.len() - i,
                {
                    let (id, probe) = results[i];
                    self.probing.remove(&id);
                    self.probes.insert(id, probe);
                    proof {
                        assert(results@.take(i + 1).drop_last() =~= results@.take(i as int));
                    }
                    i = i + 1;
                }
                proof {
                    assert(results@.take(results@.len() as int) =~= results@);
                }
            },
            Message::KeyState(state) => self.key = Some(state),
        }
    }

    /// What the action does now, in the descriptions' `language` from the settings.
    pub fn operation(&self, language: u32) -> (operation: Operation)
        ensures
            operation == Operation::DescribeAi(Run { language, redo: self@.redo }),
    {
        Operation::DescribeAi(Run { language, redo: self.redo })
    }

    /// Whether the key's state still has to be read.
    pub fn needs_key_state(&self) -> (needed: bool)
        ensures
            needed == self@.key is None,
    {
        self.key.is_none()
    }

    /// Forget what was read about the files of the folder that was open.
    pub fn reset_files(&mut self)
        ensures
            final(self)@ == (OptionsView {
                probes: Map::empty(),
                probing: Set::empty(),
                ..old(self)@
            }),
    {
        self.probes.clear();
        self.probing.clear();
    }

    /// The checked videos whose length is neither known nor being read yet, with their paths;
    /// they are marked as being read.
    pub fn missing_probes(&mut self, checked: &[CheckedFile]) -> (missing: Vec<(u64, String)>)
        ensures
            missing@.len() == missing_of(old(self)@, checked@).len(),
            forall|i: int| 0 <= i < missing@.len() ==> {
                &&& #[trigger] missing@[i].0 == missing_of(old(self)@, checked@)[i].id
                &&& missing@[i].1@ == missing_of(old(self)@, checked@)[i].path@
            },
            final(self)@ == probing_after(old(self)@, checked@),
    {
        let ghost start = self@;
        let mut missing: Vec<(u64, String)> = Vec::new();
        let ghost mut chosen: Seq<CheckedFile> = Seq::empty();
        let mut i: usize = 0;
        while i < checked.len()
            invariant
                i <= checked@.len(),
                self@ == start,
                chosen == missing_of(start, checked@.take(i as int)),
                missing@.len() == chosen.len(),
                forall|j: int| 0 <= j < missing@.len() ==> {
                    &&& #[trigger] missing@[j].0 == chosen[j].id
                    &&& missing@[j].1@ == chosen[j].path@
                },
            decreases checked@.len() - i,
        {
            let file = &checked[i];
            proof {
                assert(checked@.take(i + 1).drop_last() =~= checked@.take(i as int));
            }
            if file.is_video && !self.probes.contains_key(&file.id) && !self.probing.contains(
                &file.id,
            ) {
                missing.push((file.id, file.path.clone()));
                proof {
                    chosen = chosen.push(*file);
                }
            }
            i = i + 1;
        }
        proof {
            assert(checked@.take(checked@.len() as int) =~= checked@);
        }
        let ghost ids = chosen.map_values(|f: CheckedFile| f.id);
        let mut k: usize = 0;
        proof {
            assert(ids.take(0).to_set() =~= Set::<u64>::empty());
            assert(start.probing.union(ids.take(0).to_set()) =~= start.probing);
        }
        while k < missing.len()
            invariant
                k <= missing@.len(),
                missing@.len() == chosen.len(),
                ids.len() == chosen.len(),
                forall|j: int| 0 <= j < missing@.len() ==> #[trigger] missing@[j].0 == ids[j],
                self@ == (OptionsView { probing: start.probing.union(ids.take(k as int).to_set()), ..start }),
            decreases missing@.len() - k,
        {
            self.probing.insert(missing[k].0);
            proof {
                lemma_take_to_set_step(ids, k as int);
                assert(start.probing.union(ids.take(k + 1).to_set()) =~= start.probing.union(
                    ids.take(k as int).to_set(),
                ).insert(ids[k as int]));
            }
            k = k + 1;
        }
        proof {
            assert(ids.take(missing@.len() as int) =~= ids);
        }
        missing
    }

    /// Whether a run sends `file`.
    fn sends(&self, file: &CheckedFile) -> (sent: bool)
        ensures
            sent == will_send(self@, *file),
    {
        if !file.is_video || file.comment_loading || (!self.redo && file.has_ai_block) {
            return false;
        }
        match self.probes.get(&file.id) {
            Some(probe) => match probe.duration_ns {
                Some(d) => d <= MAX_DURATION_NS,
                None => false,
            },
            None => false,
        }
    }

    /// The videos of `checked` a run will send, in order.
    pub fn files_to_send(&self, checked: &[CheckedFile]) -> (ids: Vec<u64>)
        ensures
            ids@ == ids_to_send(self@, checked@),
    {
        let mut ids: Vec<u64> = Vec::new();
        let mut i: usize = 0;
        while i < checked.len()
            invariant
                i <= checked@.len(),
                ids@ == ids_to_send(self@, checked@.take(i as int)),
            decreases checked@.len() - i,
        {
            proof {
                assert(checked@.take(i + 1).drop_last() =~= checked@.take(i as int));
            }
            if self.sends(&checked[i]) {
                ids.push(checked[i].id);
            }
            i = i + 1;
        }
        proof {
            assert(checked@.take(checked@.len() as int) =~= checked@);
        }
        ids
    }

    /// What a run on `checked` would send, skip and wait for.
    pub fn plan(&self, checked: &[CheckedFile]) -> (plan: Plan)
        ensures
            plan.matches(plan_of(self@, checked@)),
    {
        let mut plan = Plan {
            videos: 0,
            described: 0,
            too_long: 0,
            not_videos: 0,
            unreadable: 0,
            no_subtitles: 0,
            estimating: false,
            checked_videos: 0,
            probed: 0,
            sent: Vec::new(),
        };
        let mut i: usize = 0;
        while i < checked.len()
            invariant
                i <= checked@.len(),
                plan.matches(plan_of(self@, checked@.take(i as int))),
                plan.not_videos + plan.checked_videos <= i,
                plan.probed <= plan.checked_videos,
                plan.videos <= plan.probed,
                plan.described <= plan.checked_videos,
                plan.too_long <= plan.probed,
                plan.unreadable <= plan.probed,
                plan.no_subtitles <= plan.videos,
            decreases checked@.len() - i,
        {
            proof {
                assert(checked@.take(i + 1).drop_last() =~= checked@.take(i as int));
            }
            let file = &checked[i];
            if !file.is_video {
                plan.not_videos = plan.not_videos + 1;
            } else {
                plan.checked_videos = plan.checked_videos + 1;
                if file.comment_loading {
                    plan.estimating = true;
                } else if !self.redo && file.has_ai_block {
                    plan.described = plan.described + 1;
                } else {
                    match self.probes.get(&file.id) {
                        None => plan.estimating = true,
                        Some(probe) => {
                            plan.probed = plan.probed + 1;
                            match probe.duration_ns {
                                None => plan.unreadable = plan.unreadable + 1,
                                Some(d) => {
                                    if d > MAX_DURATION_NS {
                                        plan.too_long = plan.too_long + 1;
                                    } else {
                                        plan.videos = plan.videos + 1;
                                        if !file.has_subtitles {
                                            plan.no_subtitles = plan.no_subtitles + 1;
                                        }
                                        plan.sent.push((d, probe.subtitle_chars));
                                    }
                                },
                            }
                        },
                    }
                }
            }
            i = i + 1;
        }
        proof {
            assert(checked@.take(checked@.len() as int) =~= checked@);
        }
        plan
    }

    /// The run button's label and whether it can run: "Describe 12 videos", ready once nothing
    /// is being read, there is a video to send and the key is saved.
    pub fn run_button(&self, checked: &[CheckedFile]) -> (button: (String, bool))
        ensures
            button.0@ == "Describe "@ + videos_text(plan_of(self@, checked@).videos),
            button.1 == (!plan_of(self@, checked@).estimating && plan_of(self@, checked@).videos > 0
                && self@.key == Some(KeyState::Saved)),
    {
        let plan = self.plan(checked);
        let mut label = String::from_str("Describe ");
        let count = videos(plan.videos);
        label.append(count.as_str());
        let key_saved = match self.key {
            Some(KeyState::Saved) => true,
            _ => false,
        };
        (label, !plan.estimating && plan.videos > 0 && key_saved)
    }
}

/// "12 videos" / "1 video".
pub open spec fn videos_text(n: nat) -> Seq<char> {
    counted(n, "video"@, "videos"@)
}

/// "12 videos" / "1 video".
pub fn videos(n: usize) -> (s: String)
    ensures
        s@ == videos_text(n as nat),
{
    counted_string(n, "video", "videos")
}

/// Said of a video when no API key is saved.
pub const NO_API_KEY: &'static str = "No API key";

/// Said when a job stops because the key was removed while it ran: every later video would
/// fail the same way.
pub const STOPPED_NO_KEY: &'static str = "Stopped: no Anthropic API key. Set one in Settings.";

/// Said of a video whose frames could not be read.
pub const UNREADABLE: &'static str = "Video could not be read";

/// A step of describing one video that needs the outside world; the app does it and reports
/// what came of it as a [`DescribeEvent`].
#[derive(Debug, Clone, Copy, PartialEq, Eq, Structural)]
pub enum DescribeStep {
    /// Read the comment from the file itself, so a comment the folder had not loaded yet is
    /// kept.
    ReadComment,
    /// Read the API key from the credential store.
    ReadKey,
    /// Open the clip and read its length.
    OpenClip,
    /// Sample its frames.
    SampleFrames,
    /// Send the frames and subtitles and write the answer into the comment.
    SendRequest,
}

/// How sampling the frames went.
#[derive(Debug, Clone, Copy, PartialEq, Eq, Structural)]
pub enum Sampled {
    /// This many frames were taken.
    Frames(usize),
    /// The job was cancelled meanwhile.
    Cancelled,
    Failed,
}

/// What came of a step, or the start.
#[derive(Debug, Clone, Copy, PartialEq, Eq, Structural)]
pub enum DescribeEvent {
    /// The file is about to be described; `is_video` from its extension.
    Started { is_video: bool },
    CommentRead { has_ai_block: bool },
    KeyRead { found: bool },
    /// The clip's length in nanoseconds; `None` when it could not be opened or has no length.
    ClipOpened { duration_ns: Option<u64> },
    FramesSampled(Sampled),
}

/// How describing a video ends before any request.
#[derive(Debug, Clone, Copy, PartialEq, Eq, Structural)]
pub enum DescribeEnd {
    /// Not a video, already described, or too long.
    Skipped,
    /// Cancelled before it was done: not reached.
    NotReached,
    /// No API key: failed, and the job stops ([`NO_API_KEY`], [`STOPPED_NO_KEY`]).
    NoKey,
    /// Failed: [`UNREADABLE`].
    Unreadable,
}

/// The tokens a request took, as Anthropic counts them.
#[derive(Debug, Clone, Copy, PartialEq, Eq, Structural)]
pub struct TokenUsage {
    pub input_tokens: u64,
    pub output_tokens: u64,
}

/// Said when a job stops because Anthropic could not be reached for several videos in a row.
pub const STOPPED_OFFLINE: &'static str = "Stopped: no connection to Anthropic. Run it again to describe the rest.";

/// The job's record of one described video: its status, the reason shown with it, why the job
/// stops after it, the tokens it took, whether they are unknown (a request that timed out may
/// have been answered and billed after all), and why the job stops if the same happens to
/// several videos in a row.
#[derive(Debug, Clone, PartialEq, Eq)]
pub struct DescribeRecord {
    pub status: ItemStatus,
    pub reason: Option<String>,
    pub stop_job: Option<String>,
    pub usage: Option<TokenUsage>,
    pub usage_unknown: bool,
    pub stop_if_repeated: Option<String>,
}

/// A [`DescribeRecord`], as a model.
pub struct RecordView {
    pub status: ItemStatus,
    pub reason: Option<Seq<char>>,
    pub stop_job: Option<Seq<char>>,
    pub usage: Option<TokenUsage>,
    pub usage_unknown: bool,
    pub stop_if_repeated: Option<Seq<char>>,
}

/// The text of an optional string.
pub open spec fn text_of(s: Option<String>) -> Option<Seq<char>> {
    match s {
        Some(t) => Some(t@),
        None => None,
    }
}

impl View for DescribeRecord {
    type V = RecordView;

    open spec fn view(&self) -> RecordView {
        RecordView {
            status: self.status,
            reason: text_of(self.reason),
            stop_job: text_of(self.stop_job),
            usage: self.usage,
            usage_unknown: self.usage_unknown,
            stop_if_repeated: text_of(self.stop_if_repeated),
        }
    }
}

/// A record with `status` and `reason` alone.
pub open spec fn plain_record(status: ItemStatus, reason: Option<Seq<char>>) -> RecordView {
    RecordView { status, reason, stop_job: None, usage: None, usage_unknown: false, stop_if_repeated: None }
}

/// The record of a video that ended with `end`: skipped; left pending when not reached;
/// failed for want of a key, which stops the job; failed when unreadable.
pub open spec fn end_record_of(end: DescribeEnd) -> RecordView {
    match end {
        DescribeEnd::Skipped => plain_record(ItemStatus::Skipped, None),
        DescribeEnd::NotReached => plain_record(ItemStatus::Pending, None),
        DescribeEnd::NoKey => RecordView {
            stop_job: Some(STOPPED_NO_KEY@),
            ..plain_record(ItemStatus::Failed, Some(NO_API_KEY@))
        },
        DescribeEnd::Unreadable => plain_record(ItemStatus::Failed, Some(UNREADABLE@)),
    }
}

/// A record with `status` and `reason` alone.
fn plain(status: ItemStatus, reason: Option<String>) -> (record: DescribeRecord)
    ensures
        record@ == plain_record(status, text_of(reason)),
{
    DescribeRecord { status, reason, stop_job: None, usage: None, usage_unknown: false, stop_if_repeated: None }
}

/// The job's record of a video that ended with `end`.
pub fn end_record(end: DescribeEnd) -> (record: DescribeRecord)
    ensures
        record@ == end_record_of(end),
{
    match end {
        DescribeEnd::Skipped => plain(ItemStatus::Skipped, None),
        DescribeEnd::NotReached => plain(ItemStatus::Pending, None),
        DescribeEnd::NoKey => {
            let mut record = plain(ItemStatus::Failed, Some(String::from_str(NO_API_KEY)));
            record.stop_job = Some(String::from_str(STOPPED_NO_KEY));
            record
        },
        DescribeEnd::Unreadable => plain(ItemStatus::Failed, Some(String::from_str(UNREADABLE))),
    }
}

/// Only a missing key stops the job; a video not reached is never failed.
pub proof fn law_only_a_missing_key_stops_the_job(end: DescribeEnd)
    ensures
        end_record_of(end).stop_job is Some <==> end == DescribeEnd::NoKey,
        end == DescribeEnd::NotReached ==> end_record_of(end).status == ItemStatus::Pending,
{
}

/// How a request to Anthropic failed, as far as the job cares.
#[derive(Debug, Clone, Copy, PartialEq, Eq, Structural)]
pub enum RequestErrorKind {
    /// The connection failed.
    Network,
    /// No answer in time.
    Timeout,
    /// Anything else: refused, rate limited, a bad key, a server error.
    Other,
}

/// How the request for one video went.
#[derive(Debug, Clone)]
pub enum RequestOutcome {
    /// Answered, and the description was written into the comment. A cancel that came while
    /// the answer was on its way still leaves the video done.
    Described(TokenUsage),
    /// Cancelled before the answer came.
    Cancelled,
    /// Answered, but the answer could not be read: why.
    AnswerRejected { usage: TokenUsage, reason: String },
    /// The request failed: how, the reason shown for it, and why the job stops, if this error
    /// stops it.
    Failed { kind: RequestErrorKind, reason: String, stop_job: Option<String> },
}

/// The record of a video whose request went as `outcome`: done with its tokens; left pending
/// when cancelled; failed with the reason and its tokens when the answer could not be read;
/// failed when the request failed, stopping the job when the error does, with the tokens
/// unknown after a timeout, and stopping the job if Anthropic cannot be reached for several
/// videos in a row.
pub open spec fn request_record_of(outcome: RequestOutcome) -> RecordView {
    match outcome {
        RequestOutcome::Described(usage) => RecordView { usage: Some(usage), ..plain_record(ItemStatus::Done, None) },
        RequestOutcome::Cancelled => plain_record(ItemStatus::Pending, None),
        RequestOutcome::AnswerRejected { usage, reason } => RecordView {
            usage: Some(usage),
            ..plain_record(ItemStatus::Failed, Some(reason@))
        },
        RequestOutcome::Failed { kind, reason, stop_job } => RecordView {
            status: ItemStatus::Failed,
            reason: Some(reason@),
            stop_job: text_of(stop_job),
            usage: None,
            usage_unknown: kind == RequestErrorKind::Timeout,
            stop_if_repeated: if kind == RequestErrorKind::Network || kind == RequestErrorKind::Timeout {
                Some(STOPPED_OFFLINE@)
            } else {
                None
            },
        },
    }
}

/// The job's record of a video whose request went as `outcome`.
pub fn request_record(outcome: RequestOutcome) -> (record: DescribeRecord)
    ensures
        record@ == request_record_of(outcome),
{
    match outcome {
        RequestOutcome::Described(usage) => {
            let mut record = plain(ItemStatus::Done, None);
            record.usage = Some(usage);
            record
        },
        RequestOutcome::Cancelled => plain(ItemStatus::Pending, None),
        RequestOutcome::AnswerRejected { usage, reason } => {
            let mut record = plain(ItemStatus::Failed, Some(reason));
            record.usage = Some(usage);
            record
        },
        RequestOutcome::Failed { kind, reason, stop_job } => {
            let offline = match kind {
                RequestErrorKind::Network | RequestErrorKind::Timeout => true,
                RequestErrorKind::Other => false,
            };
            DescribeRecord {
                status: ItemStatus::Failed,
                reason: Some(reason),
                stop_job,
                usage: None,
                usage_unknown: match kind {
                    RequestErrorKind::Timeout => true,
                    _ => false,
                },
                stop_if_repeated: if offline {
                    Some(String::from_str(STOPPED_OFFLINE))
                } else {
                    None
                },
            }
        },
    }
}

/// Tokens are kept whenever Anthropic answered, and a cancelled request is never failed.
pub proof fn law_an_answer_keeps_its_tokens(outcome: RequestOutcome)
    ensures
        outcome matches RequestOutcome::Described(u) ==> request_record_of(outcome).usage == Some(u),
        outcome matches RequestOutcome::AnswerRejected { usage, .. } ==> request_record_of(outcome).usage
            == Some(usage),
        outcome is Cancelled ==> request_record_of(outcome).status == ItemStatus::Pending,
        request_record_of(outcome).usage_unknown ==> outcome matches RequestOutcome::Failed {
            kind: RequestErrorKind::Timeout,
            ..
        },
{
}

/// What to do next.
#[derive(Debug, Clone, Copy, PartialEq, Eq, Structural)]
pub enum DescribeNext {
    Step(DescribeStep),
    End(DescribeEnd),
}

/// What follows `event` when a video is described, `redo` when described videos are done
/// again.
pub open spec fn next_after(redo: bool, event: DescribeEvent) -> DescribeNext {
    match event {
        DescribeEvent::Started { is_video } => if is_video {
            DescribeNext::Step(DescribeStep::ReadComment)
        } else {
            DescribeNext::End(DescribeEnd::Skipped)
        },
        DescribeEvent::CommentRead { has_ai_block } => if !redo && has_ai_block {
            DescribeNext::End(DescribeEnd::Skipped)
        } else {
            DescribeNext::Step(DescribeStep::ReadKey)
        },
        DescribeEvent::KeyRead { found } => if found {
            DescribeNext::Step(DescribeStep::OpenClip)
        } else {
            DescribeNext::End(DescribeEnd::NoKey)
        },
        DescribeEvent::ClipOpened { duration_ns } => match duration_ns {
            None => DescribeNext::End(DescribeEnd::Unreadable),
            Some(d) => if d > MAX_DURATION_NS {
                DescribeNext::End(DescribeEnd::Skipped)
            } else {
                DescribeNext::Step(DescribeStep::SampleFrames)
            },
        },
        DescribeEvent::FramesSampled(sampled) => match sampled {
            Sampled::Frames(n) => if n > 0 {
                DescribeNext::Step(DescribeStep::SendRequest)
            } else {
                DescribeNext::End(DescribeEnd::Unreadable)
            },
            Sampled::Cancelled => DescribeNext::End(DescribeEnd::NotReached),
            Sampled::Failed => DescribeNext::End(DescribeEnd::Unreadable),
        },
    }
}

/// What to do after `event` when describing a video.
pub fn describe_next(redo: bool, event: DescribeEvent) -> (next: DescribeNext)
    ensures
        next == next_after(redo, event),
{
    match event {
        DescribeEvent::Started { is_video } => if is_video {
            DescribeNext::Step(DescribeStep::ReadComment)
        } else {
            DescribeNext::End(DescribeEnd::Skipped)
        },
        DescribeEvent::CommentRead { has_ai_block } => if !redo && has_ai_block {
            DescribeNext::End(DescribeEnd::Skipped)
        } else {
            DescribeNext::Step(DescribeStep::ReadKey)
        },
        DescribeEvent::KeyRead { found } => if found {
            DescribeNext::Step(DescribeStep::OpenClip)
        } else {
            DescribeNext::End(DescribeEnd::NoKey)
        },
        DescribeEvent::ClipOpened { duration_ns } => match duration_ns {
            None => DescribeNext::End(DescribeEnd::Unreadable),
            Some(d) => if d > MAX_DURATION_NS {
                DescribeNext::End(DescribeEnd::Skipped)
            } else {
                DescribeNext::Step(DescribeStep::SampleFrames)
            },
        },
        DescribeEvent::FramesSampled(sampled) => match sampled {
            Sampled::Frames(n) => if n > 0 {
                DescribeNext::Step(DescribeStep::SendRequest)
            } else {
                DescribeNext::End(DescribeEnd::Unreadable)
            },
            Sampled::Cancelled => DescribeNext::End(DescribeEnd::NotReached),
            Sampled::Failed => DescribeNext::End(DescribeEnd::Unreadable),
        },
    }
}

/// A request is sent only for a clip of at most 30 minutes with frames: a longer clip is
/// skipped before its frames are sampled, and a clip without frames fails.
pub proof fn law_only_short_clips_with_frames_are_sent(redo: bool, duration_ns: u64, frames: usize)
    ensures
        next_after(redo, (DescribeEvent::ClipOpened { duration_ns: Some(duration_ns) }))
            == DescribeNext::Step(DescribeStep::SampleFrames) <==> duration_ns <= MAX_DURATION_NS,
        next_after(redo, DescribeEvent::FramesSampled(Sampled::Frames(frames)))
            == DescribeNext::Step(DescribeStep::SendRequest) <==> frames > 0,
{
}

/// A described video is left alone unless redo is on.
pub proof fn law_described_videos_are_skipped_without_redo()
    ensures
        next_after(false, (DescribeEvent::CommentRead { has_ai_block: true })) == DescribeNext::End(DescribeEnd::Skipped),
        next_after(true, (DescribeEvent::CommentRead { has_ai_block: true })) == DescribeNext::Step(DescribeStep::ReadKey),
{
}

/// The plan counts exactly the videos a run sends: the run button's number is the job's.
pub proof fn law_the_plan_counts_the_videos_sent(v: OptionsView, files: Seq<CheckedFile>)
    ensures
        plan_of(v, files).videos == ids_to_send(v, files).len(),
        plan_of(v, files).sent.len() == plan_of(v, files).videos,
    decreases files.len(),
{
    if files.len() > 0 {
        law_the_plan_counts_the_videos_sent(v, files.drop_last());
    }
}

/// Redo sends at least the videos sent without it.
pub proof fn law_redo_sends_more(v: OptionsView, files: Seq<CheckedFile>)
    requires
        !v.redo,
    ensures
        plan_of(v, files).videos <= plan_of((OptionsView { redo: true, ..v }), files).videos,
    decreases files.len(),
{
    if files.len() > 0 {
        law_redo_sends_more(v, files.drop_last());
    }
}

/// The lengths being read after `missing_probes` over `files`: those read before, and the
/// files it asked for.
pub open spec fn probing_after(v: OptionsView, files: Seq<CheckedFile>) -> OptionsView {
    OptionsView {
        probing: v.probing.union(missing_of(v, files).map_values(|f: CheckedFile| f.id).to_set()),
        ..v
    }
}

/// A checked video whose length is neither known nor being read is among those asked for.
proof fn lemma_missing_has(v: OptionsView, files: Seq<CheckedFile>, i: int)
    requires
        0 <= i < files.len(),
        files[i].is_video,
        !v.probes.contains_key(files[i].id),
        !v.probing.contains(files[i].id),
    ensures
        missing_of(v, files).contains(files[i]),
    decreases files.len(),
{
    let before = missing_of(v, files.drop_last());
    if i == files.len() - 1 {
        assert(missing_of(v, files) == before.push(files[i]));
        assert(before.push(files[i])[before.len() as int] == files[i]);
    } else {
        assert(files.drop_last()[i] == files[i]);
        lemma_missing_has(v, files.drop_last(), i);
        let j = choose|j: int| 0 <= j < before.len() && before[j] == files[i];
        assert(missing_of(v, files)[j] == files[i]);
    }
}

/// Once asked for, a length is not asked for again while it is read: none of the first `n`
/// files is missing after `missing_probes` over all of them.
proof fn lemma_none_missing_after(v: OptionsView, files: Seq<CheckedFile>, n: int)
    requires
        0 <= n <= files.len(),
    ensures
        missing_of(probing_after(v, files), files.take(n)).len() == 0,
    decreases n,
{
    if n > 0 {
        lemma_none_missing_after(v, files, n - 1);
        assert(files.take(n).drop_last() =~= files.take(n - 1));
        let f = files[n - 1];
        assert(files.take(n).last() == f);
        if f.is_video && !v.probes.contains_key(f.id) && !v.probing.contains(f.id) {
            lemma_missing_has(v, files, n - 1);
            let m = missing_of(v, files);
            let j = choose|j: int| 0 <= j < m.len() && m[j] == f;
            assert(m.map_values(|g: CheckedFile| g.id)[j] == f.id);
            assert(m.map_values(|g: CheckedFile| g.id).contains(f.id));
        }
    }
}

/// A clip's length is asked for once: right after `missing_probes`, asking again with the
/// same files asks for nothing.
pub proof fn law_a_length_is_asked_for_once(v: OptionsView, files: Seq<CheckedFile>)
    ensures
        missing_of(probing_after(v, files), files).len() == 0,
{
    lemma_none_missing_after(v, files, files.len() as int);
    assert(files.take(files.len() as int) =~= files);
}

/// How long sending takes, in whole minutes: "< 1 min" for a moment that rounds to none,
/// "38 min".
pub open spec fn minutes_text_of(minutes: u64, some_time: bool) -> Seq<char> {
    if minutes == 0 && some_time { "< 1 min"@ } else { decimal(minutes as nat) + " min"@ }
}

/// How long sending takes, from its length rounded to whole `minutes`; `some_time` when the
/// length was not zero.
pub fn minutes_text(minutes: u64, some_time: bool) -> (text: String)
    ensures
        text@ == minutes_text_of(minutes, some_time),
{
    proof {
        reveal_strlit("< 1 min");
        reveal_strlit(" min");
    }
    if minutes == 0 && some_time {
        return String::from_str("< 1 min");
    }
    let mut text = decimal_string_u64(minutes);
    text.append(" min");
    text
}

/// A run's length in whole minutes as the panel says it: "under a minute", "25 min", "2 h",
/// "2 h 10 min".
pub open spec fn duration_text_of(minutes: u64) -> Seq<char> {
    if minutes == 0 {
        "under a minute"@
    } else if minutes < 60 {
        decimal(minutes as nat) + " min"@
    } else if minutes % 60 == 0 {
        decimal((minutes / 60) as nat) + " h"@
    } else {
        decimal((minutes / 60) as nat) + " h "@ + decimal((minutes % 60) as nat) + " min"@
    }
}

/// A run's length, from its length rounded to whole `minutes`.
pub fn duration_text(minutes: u64) -> (text: String)
    ensures
        text@ == duration_text_of(minutes),
{
    proof {
        reveal_strlit("under a minute");
        reveal_strlit(" min");
        reveal_strlit(" h");
        reveal_strlit(" h ");
    }
    if minutes == 0 {
        return String::from_str("under a minute");
    }
    if minutes < 60 {
        let mut text = decimal_string_u64(minutes);
        text.append(" min");
        return text;
    }
    let mut text = decimal_string_u64(minutes / 60);
    if minutes % 60 == 0 {
        text.append(" h");
    } else {
        text.append(" h ");
        let rest = decimal_string_u64(minutes % 60);
        text.append(rest.as_str());
        text.append(" min");
    }
    text
}

} // verus!
