//! "Generate subtitles": sends each checked video's audio to Soniox and writes the subtitles
//! next to it as `clip.srt`.
//!
//! Before the run the panel shows a plan with the cost, worked out in the background from the
//! files and their headers; the plan is asked for once per change of the checked files or the
//! options, and an answer for an older change is dropped. The key's price is looked up once per
//! key. What a plan holds besides its counts (seconds of audio, excluded files), and the
//! price's dollars, are the app's: here they are carried as `P` and `R`.

use vstd::prelude::*;

use crate::batch::state::ItemStatus;
use crate::text::{
    contains_text, counted, counted_string, decimal, decimal_string, decimal_string_u64,
    digit_char, ends_with_text, first_chars, has_suffix, has_text, str_eq, take_chars,
};

verus! {

/// The action's name, not translated.
pub const LABEL: &'static str = "Generate subtitles";

/// Shown when Soniox refuses the key, in the plan and when it stops a job.
pub const KEY_REJECTED: &'static str = "Soniox rejected the key";

/// Whether a key is set, as far as the settings know.
#[derive(Clone)]
pub enum KeyStatus {
    /// Not read from the credential store yet.
    Unknown,
    Missing,
    Present(String),
}

impl Default for KeyStatus {
    /// Not read yet.
    fn default() -> (status: Self)
        ensures
            status is Unknown,
    {
        KeyStatus::Unknown
    }
}

/// A key status, with the key as characters.
pub enum KeyView {
    Unknown,
    Missing,
    Present(Seq<char>),
}

impl View for KeyStatus {
    type V = KeyView;

    open spec fn view(&self) -> KeyView {
        match self {
            KeyStatus::Unknown => KeyView::Unknown,
            KeyStatus::Missing => KeyView::Missing,
            KeyStatus::Present(k) => KeyView::Present(k@),
        }
    }
}

/// The transcription price the estimate uses; `R` is the learned price (dollars per hour).
#[derive(Debug, Clone, Copy, PartialEq)]
pub enum Price<R> {
    /// From the account's usage in the last 30 days.
    Learned(R),
    /// No usage to learn from, or the lookup failed or took too long.
    Typical,
    /// Soniox refused the key.
    Rejected,
}

/// A request for the plan of the checked files, answered in the background.
#[derive(Debug, Clone, Copy, PartialEq, Eq, Structural)]
pub struct PlanRequest {
    pub generation: u64,
    pub replace: bool,
}

/// The counts of a plan: what the checked files need, from their names and headers only.
#[derive(Debug, Clone, Copy, PartialEq, Eq, Structural, Default)]
pub struct PlanCounts {
    /// Videos to send to Soniox.
    pub transcribe: usize,
    /// Videos to send whose length is unknown.
    pub unknown_length: usize,
    pub already_subtitled: usize,
    /// Subtitles rebuilt from a transcript saved next to the video: free.
    pub rebuilt_free: usize,
    /// Checked before and found to have no speech.
    pub no_speech_before: usize,
    pub no_audio: usize,
    /// Videos whose `.srt` name another checked video already takes.
    pub shared_name: usize,
    /// Videos the built-in decoder cannot read while ffmpeg is not installed.
    pub unreadable: usize,
}

/// What the plan says about files the built-in decoder cannot read while ffmpeg is missing.
pub const INSTALL_FFMPEG: &'static str = "to read .mkv, .m2ts, .avi …, install ffmpeg from ffmpeg.org, add it to PATH, restart frename";

/// Whether running the plan would do anything at all.
pub open spec fn has_work(counts: PlanCounts) -> bool {
    counts.transcribe + counts.rebuilt_free > 0
}

pub enum Message {
    /// The key the settings hold changed (or was read for the first time).
    SetKey(KeyStatus),
    /// Transcribe again videos that already have subtitles.
    SetReplace(bool),
    /// A key was saved in the settings: look its price up again, even for the same key (it may
    /// have been refused before and fixed on the account since).
    KeySaved,
}

/// The options and where the plan and the price stand, as a model.
pub struct OptionsView<P, R> {
    pub key: KeyView,
    pub replace: bool,
    /// Bumped by every change the plan depends on.
    pub generation: u64,
    /// The plan of the current generation, once worked out.
    pub plan: Option<(PlanCounts, P)>,
    /// A plan for the current generation has to be asked for.
    pub wanted: bool,
    /// The key whose price was asked for, and the price once known.
    pub price: Option<(Seq<char>, Option<Price<R>>)>,
}

/// The options of the action, the plan of the checked files and the price of the key.
pub struct Options<P, R> {
    key: KeyStatus,
    replace: bool,
    generation: u64,
    plan: Option<(PlanCounts, P)>,
    wanted: bool,
    price: Option<(String, Option<Price<R>>)>,
}

impl<P, R> View for Options<P, R> {
    type V = OptionsView<P, R>;

    closed spec fn view(&self) -> OptionsView<P, R> {
        OptionsView {
            key: self.key@,
            replace: self.replace,
            generation: self.generation,
            plan: self.plan,
            wanted: self.wanted,
            price: match self.price {
                Some((k, p)) => Some((k@, p)),
                None => None,
            },
        }
    }
}

/// The options after the checked files, or what they have on disk, changed: a new
/// generation, whose plan is to be asked for.
pub open spec fn invalidated<P, R>(v: OptionsView<P, R>) -> OptionsView<P, R> {
    OptionsView { generation: (v.generation + 1) as u64, plan: None, wanted: true, ..v }
}

/// The options after a message.
pub open spec fn after_message<P, R>(v: OptionsView<P, R>, message: Message) -> OptionsView<P, R> {
    match message {
        Message::SetKey(key) => OptionsView { key: key@, ..v },
        Message::SetReplace(replace) => invalidated(OptionsView { replace, ..v }),
        Message::KeySaved => OptionsView { price: None, ..v },
    }
}

/// Asking for the plan: a request for the current generation when one is wanted, and then no
/// more until the next change.
pub open spec fn plan_requested<P, R>(v: OptionsView<P, R>) -> (OptionsView<P, R>, Option<PlanRequest>) {
    if v.wanted {
        (
            OptionsView { wanted: false, ..v },
            Some(PlanRequest { generation: v.generation, replace: v.replace }),
        )
    } else {
        (v, None)
    }
}

/// The plan worked out for `generation` is taken, unless the files changed since.
pub open spec fn plan_answered<P, R>(v: OptionsView<P, R>, generation: u64, counts: PlanCounts, plan: P) -> OptionsView<P, R> {
    if generation == v.generation {
        OptionsView { plan: Some((counts, plan)), ..v }
    } else {
        v
    }
}

/// Whether the price of `key` was asked for already.
pub open spec fn price_asked_for<P, R>(v: OptionsView<P, R>, key: Seq<char>) -> bool {
    v.price matches Some((known, _)) && known == key
}

/// Asking for the price: the present key's, once per key.
pub open spec fn price_requested<P, R>(v: OptionsView<P, R>) -> (OptionsView<P, R>, Option<Seq<char>>) {
    match v.key {
        KeyView::Present(key) => if price_asked_for(v, key) {
            (v, None)
        } else {
            (OptionsView { price: Some((key, None)), ..v }, Some(key))
        },
        _ => (v, None),
    }
}

/// The price found for `key` is kept, if it is the key asked for.
pub open spec fn price_answered<P, R>(v: OptionsView<P, R>, key: Seq<char>, price: Price<R>) -> OptionsView<P, R> {
    if price_asked_for(v, key) {
        OptionsView { price: Some((key, Some(price))), ..v }
    } else {
        v
    }
}

/// The price of the present key, once known.
pub open spec fn current_price<P, R>(v: OptionsView<P, R>) -> Option<Price<R>> {
    match v.key {
        KeyView::Present(key) => if price_asked_for(v, key) {
            v.price.unwrap().1
        } else {
            None
        },
        _ => None,
    }
}

/// Whether a job can start: the plan is known and has work, the key is present and not
/// refused, and a transcription waits for the price lookup, which also tells whether Soniox
/// accepts the key (free rebuilds do not).
pub open spec fn can_run<P, R>(v: OptionsView<P, R>) -> bool {
    &&& v.plan matches Some((counts, _))
    &&& has_work(counts)
    &&& v.key is Present
    &&& match current_price(v) {
        Some(Price::Rejected) => false,
        Some(_) => true,
        None => counts.transcribe == 0,
    }
}

/// The run button's label: what is sent, what is rebuilt, or that there is nothing to do.
pub open spec fn run_label(plan: Option<PlanCounts>) -> Seq<char> {
    match plan {
        None => "Transcribe"@,
        Some(counts) => if counts.transcribe > 0 {
            "Transcribe "@ + counted(counts.transcribe as nat, "video"@, "videos"@)
        } else if counts.rebuilt_free > 0 {
            "Build "@ + counted(counts.rebuilt_free as nat, "subtitle"@, "subtitles"@) + " (free)"@
        } else {
            "Nothing to transcribe"@
        },
    }
}

/// "3 already have subtitles", when there are any.
pub open spec fn not_sent_line(n: nat, one: Seq<char>, many: Seq<char>) -> Seq<Seq<char>> {
    if n > 0 { seq![counted(n, one, many)] } else { Seq::empty() }
}

/// The plan's lines after the one on what is sent: one per kind of file that is not sent, in
/// this order, then the unreadable ones, then "Nothing to transcribe" when there is no work.
pub open spec fn not_sent_lines(c: PlanCounts) -> Seq<Seq<char>> {
    not_sent_line(c.already_subtitled as nat, "already has subtitles"@, "already have subtitles"@)
        + not_sent_line(c.rebuilt_free as nat, "rebuilt free from a saved transcript"@, "rebuilt free from a saved transcript"@)
        + not_sent_line(c.no_speech_before as nat, "had no speech last time"@, "had no speech last time"@)
        + not_sent_line(c.no_audio as nat, "has no audio"@, "have no audio"@)
        + not_sent_line(
            c.shared_name as nat,
            "shares its subtitle name with another video"@,
            "share their subtitle name with another video"@,
        )
        + (if c.unreadable > 0 {
            seq![decimal(c.unreadable as nat) + " cannot be read ("@ + INSTALL_FFMPEG@ + ")"@]
        } else {
            Seq::empty()
        })
        + (if has_work(c) { Seq::empty() } else { seq!["Nothing to transcribe"@] })
}

/// The texts of `lines`.
pub open spec fn texts(lines: Seq<String>) -> Seq<Seq<char>> {
    lines.map_values(|l: String| l@)
}

/// Adds "`n` `one`/`many`" to `lines` when `n` is not zero.
fn push_not_sent(lines: &mut Vec<String>, n: usize, one: &str, many: &str)
    ensures
        texts(final(lines)@) == texts(old(lines)@) + not_sent_line(n as nat, one@, many@),
{
    if n > 0 {
        let line = counted_string(n, one, many);
        lines.push(line);
        proof {
            assert(texts(final(lines)@) =~= texts(old(lines)@) + not_sent_line(n as nat, one@, many@));
        }
    } else {
        proof {
            assert(texts(final(lines)@) =~= texts(old(lines)@) + not_sent_line(n as nat, one@, many@));
        }
    }
}

/// The plan's lines on what is not sent and why, and whether there is nothing to do.
pub fn not_sent(counts: PlanCounts) -> (lines: Vec<String>)
    ensures
        texts(lines@) == not_sent_lines(counts),
{
    let mut lines: Vec<String> = Vec::new();
    proof {
        assert(texts(lines@) =~= Seq::<Seq<char>>::empty());
    }
    push_not_sent(&mut lines, counts.already_subtitled, "already has subtitles", "already have subtitles");
    push_not_sent(&mut lines, counts.rebuilt_free, "rebuilt free from a saved transcript", "rebuilt free from a saved transcript");
    push_not_sent(&mut lines, counts.no_speech_before, "had no speech last time", "had no speech last time");
    push_not_sent(&mut lines, counts.no_audio, "has no audio", "have no audio");
    push_not_sent(
        &mut lines,
        counts.shared_name,
        "shares its subtitle name with another video",
        "share their subtitle name with another video",
    );
    let ghost before = texts(lines@);
    if counts.unreadable > 0 {
        proof {
            reveal_strlit(" cannot be read (");
            reveal_strlit(")");
        }
        let mut line = decimal_string(counts.unreadable);
        line.append(" cannot be read (");
        line.append(INSTALL_FFMPEG);
        line.append(")");
        lines.push(line);
    }
    proof {
        assert(texts(lines@) =~= before + (if counts.unreadable > 0 {
            seq![decimal(counts.unreadable as nat) + " cannot be read ("@ + INSTALL_FFMPEG@ + ")"@]
        } else {
            Seq::<Seq<char>>::empty()
        }));
    }
    let ghost before = texts(lines@);
    if counts.transcribe == 0 && counts.rebuilt_free == 0 {
        lines.push(String::from_str("Nothing to transcribe"));
    }
    proof {
        reveal_strlit("Nothing to transcribe");
        assert(texts(lines@) =~= before + (if has_work(counts) { Seq::<Seq<char>>::empty() } else { seq!["Nothing to transcribe"@] }));
        assert(texts(lines@) =~= not_sent_lines(counts));
    }
    lines
}

/// The counts of the plan, if it is known.
pub open spec fn plan_counts<P, R>(v: OptionsView<P, R>) -> Option<PlanCounts> {
    match v.plan {
        Some((counts, _)) => Some(counts),
        None => None,
    }
}

impl<P, R> Options<P, R> {
    /// No key read, no replace, no plan asked for yet.
    pub fn new() -> (options: Self)
        ensures
            options@.key is Unknown,
            !options@.replace,
            options@.generation == 0,
            options@.plan is None,
            !options@.wanted,
            options@.price is None,
    {
        Options { key: KeyStatus::Unknown, replace: false, generation: 0, plan: None, wanted: false, price: None }
    }

    pub fn update(&mut self, message: Message)
        requires
            message is SetReplace ==> old(self)@.generation < u64::MAX,
        ensures
            final(self)@ == after_message(old(self)@, message),
    {
        match message {
            Message::SetKey(key) => self.key = key,
            Message::SetReplace(replace) => {
                self.replace = replace;
                self.invalidate_plan();
            },
            Message::KeySaved => self.price = None,
        }
    }

    /// The checked files or what they have on disk changed: the plan must be worked out again.
    pub fn invalidate_plan(&mut self)
        requires
            old(self)@.generation < u64::MAX,
        ensures
            final(self)@ == invalidated(old(self)@),
    {
        self.generation = self.generation + 1;
        self.plan = None;
        self.wanted = true;
    }

    /// The plan to ask for, once per change.
    pub fn take_plan_request(&mut self) -> (request: Option<PlanRequest>)
        ensures
            (final(self)@, request) == plan_requested(old(self)@),
    {
        if !self.wanted {
            return None;
        }
        self.wanted = false;
        Some(PlanRequest { generation: self.generation, replace: self.replace })
    }

    /// Take the plan worked out for `generation`, with its counts, unless the files changed
    /// since.
    pub fn plan_ready(&mut self, generation: u64, counts: PlanCounts, plan: P)
        ensures
            final(self)@ == plan_answered(old(self)@, generation, counts, plan),
    {
        if generation == self.generation {
            self.plan = Some((counts, plan));
        }
    }

    /// The plan of the current generation, once worked out.
    pub fn plan(&self) -> (plan: Option<&(PlanCounts, P)>)
        ensures
            match plan {
                Some(p) => self@.plan == Some(*p),
                None => self@.plan is None,
            },
    {
        self.plan.as_ref()
    }

    /// Whether the price of `key` was asked for already.
    fn asked_for(&self, key: &str) -> (asked: bool)
        ensures
            asked == price_asked_for(self@, key@),
    {
        match &self.price {
            Some((known, _)) => str_eq(known.as_str(), key),
            None => false,
        }
    }

    /// The key whose price has to be looked up: once per key per session.
    pub fn take_price_request(&mut self) -> (key: Option<String>)
        ensures
            final(self)@ == price_requested(old(self)@).0,
            match key {
                Some(k) => price_requested(old(self)@).1 == Some(k@),
                None => price_requested(old(self)@).1 is None,
            },
    {
        let key = match &self.key {
            KeyStatus::Present(key) => key.clone(),
            _ => return None,
        };
        if self.asked_for(key.as_str()) {
            return None;
        }
        self.price = Some((key.clone(), None));
        Some(key)
    }

    /// The price found for `key`, kept if it is the key asked for.
    pub fn price_ready(&mut self, key: String, price: Price<R>)
        ensures
            final(self)@ == price_answered(old(self)@, key@, price),
    {
        if self.asked_for(key.as_str()) {
            self.price = Some((key, Some(price)));
        }
    }

    /// The key needs reading from the credential store before the action can run.
    pub fn needs_key(&self) -> (needed: bool)
        ensures
            needed == self@.key is Unknown,
    {
        match self.key {
            KeyStatus::Unknown => true,
            _ => false,
        }
    }

    /// Whether the present key was refused, as far as its price lookup tells.
    pub fn key_rejected(&self) -> (rejected: bool)
        ensures
            rejected == (current_price(self@) matches Some(Price::Rejected)),
    {
        match &self.key {
            KeyStatus::Present(key) => if self.asked_for(key.as_str()) {
                match &self.price {
                    Some((_, Some(Price::Rejected))) => true,
                    _ => false,
                }
            } else {
                false
            },
            _ => false,
        }
    }

    /// Whether a job can start now.
    pub fn runnable(&self) -> (runnable: bool)
        ensures
            runnable == can_run(self@),
    {
        let counts = match &self.plan {
            Some((counts, _)) => *counts,
            None => return false,
        };
        if counts.transcribe == 0 && counts.rebuilt_free == 0 {
            return false;
        }
        let key = match &self.key {
            KeyStatus::Present(key) => key,
            _ => return false,
        };
        if !self.asked_for(key.as_str()) {
            return counts.transcribe == 0;
        }
        match &self.price {
            Some((_, Some(Price::Rejected))) => false,
            Some((_, Some(_))) => true,
            _ => counts.transcribe == 0,
        }
    }

    /// The run button: its label, and whether it can be pressed.
    pub fn run_button(&self) -> (button: (String, bool))
        ensures
            button.0@ == run_label(plan_counts(self@)),
            button.1 == can_run(self@),
    {
        proof {
            reveal_strlit("Transcribe");
            reveal_strlit("Transcribe ");
            reveal_strlit("Build ");
            reveal_strlit(" (free)");
            reveal_strlit("Nothing to transcribe");
        }
        let runnable = self.runnable();
        let counts = match &self.plan {
            Some((counts, _)) => *counts,
            None => return (String::from_str("Transcribe"), false),
        };
        if counts.transcribe > 0 {
            let mut label = String::from_str("Transcribe ");
            let n = counted_string(counts.transcribe, "video", "videos");
            label.append(n.as_str());
            (label, runnable)
        } else if counts.rebuilt_free > 0 {
            let mut label = String::from_str("Build ");
            let n = counted_string(counts.rebuilt_free, "subtitle", "subtitles");
            label.append(n.as_str());
            label.append(" (free)");
            (label, runnable)
        } else {
            (String::from_str("Nothing to transcribe"), false)
        }
    }
}

/// How transcribing a video ended, when it did.
#[derive(Debug, Clone, Copy, PartialEq, Eq, Structural)]
pub enum Outcome {
    /// The subtitles were written.
    Written,
    /// The video had subtitles already.
    Skipped,
    NoAudio,
    NoSpeech,
}

/// An error Soniox answered with.
#[derive(Debug, Clone)]
pub struct ApiFailure {
    /// The HTTP status, when there was one.
    pub status: Option<u16>,
    pub error_type: String,
    pub message: String,
    /// Whether every later file would fail the same way.
    pub fatal: bool,
}

/// Why transcribing a video failed: Soniox's answer, if it answered, and the error's text in
/// full (with its context) and of its root cause.
#[derive(Debug, Clone)]
pub struct Failure {
    pub api: Option<ApiFailure>,
    pub chain: String,
    pub root: String,
}

/// Why the job stops, and whether the panel offers to open the settings (for the key).
#[derive(Debug, Clone, PartialEq, Eq)]
pub struct JobStop {
    pub message: String,
    pub open_settings: bool,
}

/// The job's record of one video: its status, the reason shown with it, and whether the job
/// stops after it.
#[derive(Debug, Clone, PartialEq, Eq)]
pub struct FileResult {
    pub status: ItemStatus,
    pub reason: Option<String>,
    pub stop_job: Option<JobStop>,
}

/// Why a video failed, short enough for the result list (the log has the whole error): what
/// Soniox said; that it could not be reached; that the audio format is not supported; or the
/// first 120 characters of the root cause.
pub open spec fn failure_reason_text(f: Failure) -> Seq<char> {
    match f.api {
        Some(a) => "failed: Soniox: "@ + a.message@,
        None => if has_text(f.chain@, "request to Soniox failed"@) {
            "failed: cannot reach Soniox"@
        } else if has_text(f.chain@, "unsupported container"@) || has_text(f.chain@, "unsupported audio codec"@)
            || has_text(f.chain@, "ffmpeg is not on PATH"@) {
            "audio format not supported"@
        } else {
            "failed: "@ + first_chars(f.root@, 120)
        },
    }
}

/// Whether Soniox refused the key.
pub open spec fn key_refused(a: ApiFailure) -> bool {
    a.status == Some(401u16) || a.error_type@ == "unauthenticated"@ || a.error_type@ == "permission_denied"@
}

/// Why a fatal error stops the job, and whether to offer the settings.
pub open spec fn stop_of(a: ApiFailure) -> Option<(Seq<char>, bool)> {
    if !a.fatal {
        None
    } else if key_refused(a) {
        Some((KEY_REJECTED@, true))
    } else if a.error_type@ == "organization_balance_exhausted"@ {
        Some(("Soniox balance is empty. Top it up at console.soniox.com."@, false))
    } else if has_suffix(a.error_type@, "budget_exhausted"@) {
        Some(("The Soniox monthly budget is used up. Raise it at console.soniox.com."@, false))
    } else {
        Some(("Soniox stopped the job ("@ + a.error_type@ + ")."@, false))
    }
}

/// The record of a video whose work ended with `result`; `cancelled` when the job was
/// cancelled meanwhile: such a video is not reached, not failed.
pub open spec fn file_result_of(result: Result<Outcome, Failure>, cancelled: bool) -> (ItemStatus, Option<Seq<char>>, Option<(Seq<char>, bool)>) {
    match result {
        Ok(Outcome::Written) => (ItemStatus::Done, None, None),
        Ok(Outcome::Skipped) => (ItemStatus::Skipped, Some("already had subtitles"@), None),
        Ok(Outcome::NoAudio) => (ItemStatus::Skipped, Some("no audio"@), None),
        Ok(Outcome::NoSpeech) => (ItemStatus::Skipped, Some("no speech"@), None),
        Err(f) => if cancelled {
            (ItemStatus::Pending, None, None)
        } else {
            (
                ItemStatus::Failed,
                Some(failure_reason_text(f)),
                match f.api {
                    Some(a) => stop_of(a),
                    None => None,
                },
            )
        },
    }
}

/// Why a video failed, short enough for the result list.
pub fn failure_reason(failure: &Failure) -> (reason: String)
    ensures
        reason@ == failure_reason_text(*failure),
{
    proof {
        reveal_strlit("failed: Soniox: ");
        reveal_strlit("failed: cannot reach Soniox");
        reveal_strlit("audio format not supported");
        reveal_strlit("failed: ");
    }
    if let Some(api) = &failure.api {
        let mut reason = String::from_str("failed: Soniox: ");
        reason.append(api.message.as_str());
        return reason;
    }
    let chain = failure.chain.as_str();
    if contains_text(chain, "request to Soniox failed") {
        return String::from_str("failed: cannot reach Soniox");
    }
    if contains_text(chain, "unsupported container") || contains_text(chain, "unsupported audio codec")
        || contains_text(chain, "ffmpeg is not on PATH") {
        return String::from_str("audio format not supported");
    }
    let mut reason = String::from_str("failed: ");
    let short = take_chars(failure.root.as_str(), 120);
    reason.append(short.as_str());
    reason
}

/// Why a fatal error stops the job, if it does.
fn job_stop(api: &ApiFailure) -> (stop: Option<JobStop>)
    ensures
        match stop {
            Some(s) => stop_of(*api) == Some((s.message@, s.open_settings)),
            None => stop_of(*api) is None,
        },
{
    if !api.fatal {
        return None;
    }
    proof {
        reveal_strlit("unauthenticated");
        reveal_strlit("permission_denied");
        reveal_strlit("organization_balance_exhausted");
        reveal_strlit("budget_exhausted");
        reveal_strlit("Soniox balance is empty. Top it up at console.soniox.com.");
        reveal_strlit("The Soniox monthly budget is used up. Raise it at console.soniox.com.");
        reveal_strlit("Soniox stopped the job (");
        reveal_strlit(").");
    }
    let kind = api.error_type.as_str();
    let refused = api.status == Some(401u16) || str_eq(kind, "unauthenticated") || str_eq(kind, "permission_denied");
    let message = if refused {
        String::from_str(KEY_REJECTED)
    } else if str_eq(kind, "organization_balance_exhausted") {
        String::from_str("Soniox balance is empty. Top it up at console.soniox.com.")
    } else if ends_with_text(kind, "budget_exhausted") {
        String::from_str("The Soniox monthly budget is used up. Raise it at console.soniox.com.")
    } else {
        let mut m = String::from_str("Soniox stopped the job (");
        m.append(kind);
        m.append(").");
        m
    };
    Some(JobStop { message, open_settings: refused })
}

/// The job's record of a video whose work ended with `result`; `cancelled` when the job was
/// cancelled meanwhile.
pub fn item_result(result: Result<Outcome, Failure>, cancelled: bool) -> (record: FileResult)
    ensures
        ({
            let (status, reason, stop) = file_result_of(result, cancelled);
            &&& record.status == status
            &&& match record.reason {
                Some(r) => reason == Some(r@),
                None => reason is None,
            }
            &&& match record.stop_job {
                Some(s) => stop == Some((s.message@, s.open_settings)),
                None => stop is None,
            }
        }),
{
    proof {
        reveal_strlit("already had subtitles");
        reveal_strlit("no audio");
        reveal_strlit("no speech");
    }
    match result {
        Ok(Outcome::Written) => FileResult { status: ItemStatus::Done, reason: None, stop_job: None },
        Ok(Outcome::Skipped) => FileResult {
            status: ItemStatus::Skipped,
            reason: Some(String::from_str("already had subtitles")),
            stop_job: None,
        },
        Ok(Outcome::NoAudio) => FileResult {
            status: ItemStatus::Skipped,
            reason: Some(String::from_str("no audio")),
            stop_job: None,
        },
        Ok(Outcome::NoSpeech) => FileResult {
            status: ItemStatus::Skipped,
            reason: Some(String::from_str("no speech")),
            stop_job: None,
        },
        Err(failure) => if cancelled {
            FileResult { status: ItemStatus::Pending, reason: None, stop_job: None }
        } else {
            let reason = failure_reason(&failure);
            let stop_job = match &failure.api {
                Some(api) => job_stop(api),
                None => None,
            };
            FileResult { status: ItemStatus::Failed, reason: Some(reason), stop_job }
        },
    }
}

/// The record of a video decided before any work on it: skipped, with the reason, when the
/// plan left it out (`excluded`); left pending when the job was cancelled; `None` when the
/// video is to be transcribed.
pub fn before_work(excluded: Option<&str>, cancelled: bool) -> (record: Option<FileResult>)
    ensures
        match excluded {
            Some(e) => record matches Some(r) && r.status == ItemStatus::Skipped && r.stop_job is None
                && (r.reason matches Some(t) && t@ == e@),
            None => if cancelled {
                record matches Some(r) && r.status == ItemStatus::Pending && r.reason is None && r.stop_job is None
            } else {
                record is None
            },
        },
{
    match excluded {
        Some(reason) => Some(FileResult { status: ItemStatus::Skipped, reason: Some(reason.to_owned()), stop_job: None }),
        None => if cancelled {
            Some(FileResult { status: ItemStatus::Pending, reason: None, stop_job: None })
        } else {
            None
        },
    }
}

/// A cancelled video is never failed and never stops the job.
pub proof fn law_a_cancelled_file_is_not_reached_not_failed(result: Result<Outcome, Failure>)
    requires
        result is Err,
    ensures
        file_result_of(result, true).0 == ItemStatus::Pending,
        file_result_of(result, true).2 is None,
{
}

/// A refused key stops the job and offers the settings, where the key is set.
pub proof fn law_a_refused_key_stops_the_job(a: ApiFailure)
    requires
        a.fatal,
        key_refused(a),
    ensures
        stop_of(a) == Some((KEY_REJECTED@, true)),
{
}

/// Audio length as the plan says it, from whole seconds: "20 s", "41 min" (to the nearest
/// minute), "1 h 5 min".
pub open spec fn audio_length_text_of(seconds: u64) -> Seq<char> {
    if seconds < 60 {
        decimal(seconds as nat) + " s"@
    } else if seconds < 3600 {
        decimal(((seconds + 30) / 60) as nat) + " min"@
    } else {
        decimal((seconds / 3600) as nat) + " h "@ + decimal((seconds / 60 % 60) as nat) + " min"@
    }
}

/// Audio length as the plan says it, from its length rounded to whole `seconds`.
pub fn audio_length_text(seconds: u64) -> (text: String)
    ensures
        text@ == audio_length_text_of(seconds),
{
    proof {
        reveal_strlit(" s");
        reveal_strlit(" min");
        reveal_strlit(" h ");
    }
    if seconds < 60 {
        let mut text = decimal_string_u64(seconds);
        text.append(" s");
        return text;
    }
    if seconds < 3600 {
        let mut text = decimal_string_u64((seconds + 30) / 60);
        text.append(" min");
        return text;
    }
    let mut text = decimal_string_u64(seconds / 3600);
    text.append(" h ");
    let minutes = decimal_string_u64(seconds / 60 % 60);
    text.append(minutes.as_str());
    text.append(" min");
    text
}

/// A sum of dollars as the panel shows it: worked out by the app from the price, and given
/// here in whole cents, or as less than a cent when it is more than nothing but below one.
#[derive(Debug, Clone, Copy, PartialEq, Eq, Structural)]
pub enum Cost {
    LessThanACent,
    Cents(u64),
}

/// "$0.07", "$12.40"; "less than $0.01" for a small sum, which is not shown as zero.
pub open spec fn usd_text_of(cost: Cost) -> Seq<char> {
    match cost {
        Cost::LessThanACent => "less than $0.01"@,
        Cost::Cents(c) => "$"@ + decimal((c / 100) as nat) + "."@ + seq![
            digit_char(((c % 100) / 10) as nat),
            digit_char((c % 10) as nat),
        ],
    }
}

/// A sum of dollars as the panel shows it.
pub fn usd_text(cost: Cost) -> (text: String)
    ensures
        text@ == usd_text_of(cost),
{
    proof {
        reveal_strlit("less than $0.01");
        reveal_strlit("$");
        reveal_strlit(".");
    }
    match cost {
        Cost::LessThanACent => String::from_str("less than $0.01"),
        Cost::Cents(c) => {
            let mut text = String::from_str("$");
            let dollars = decimal_string_u64(c / 100);
            text.append(dollars.as_str());
            text.append(".");
            let tens = decimal_string_u64((c % 100) / 10);
            let ones = decimal_string_u64(c % 10);
            text.append(tens.as_str());
            text.append(ones.as_str());
            proof {
                assert(decimal(((c % 100) / 10) as nat) == seq![digit_char(((c % 100) / 10) as nat)]);
                assert(decimal((c % 10) as nat) == seq![digit_char((c % 10) as nat)]);
                assert(text@ =~= usd_text_of(cost));
            }
            text
        },
    }
}

/// What the plan's first line says of the cost: unknown when no length is known, being
/// estimated while the price is looked up, else about `usd`, at the typical price unless the
/// account's own price was learned.
pub open spec fn plan_cost_text<R>(audio_known: bool, price: Option<Price<R>>, usd: Cost) -> Seq<char> {
    if !audio_known {
        "cost unknown"@
    } else {
        match price {
            None => "Estimating…"@,
            Some(Price::Learned(_)) => "about "@ + usd_text_of(usd),
            Some(_) => "about "@ + usd_text_of(usd) + " (typical price)"@,
        }
    }
}

/// The plan's first line, on what is sent: "3 videos to transcribe, 41 min of audio + 1 of
/// unknown length · about $0.20", from the audio's length in whole seconds.
pub open spec fn transcribe_line_of<R>(
    counts: PlanCounts,
    audio_seconds: u64,
    audio_known: bool,
    price: Option<Price<R>>,
    usd: Cost,
) -> Seq<char> {
    counted(counts.transcribe as nat, "video"@, "videos"@) + " to transcribe, "@ + audio_length_text_of(
        audio_seconds,
    ) + " of audio"@ + (if counts.unknown_length > 0 {
        " + "@ + decimal(counts.unknown_length as nat) + " of unknown length"@
    } else {
        Seq::<char>::empty()
    }) + " · "@ + plan_cost_text(audio_known, price, usd)
}

/// The plan as the panel shows it: the line on what is sent, when anything is, then the lines
/// on what is not.
pub open spec fn plan_lines_of<R>(
    counts: PlanCounts,
    audio_seconds: u64,
    audio_known: bool,
    price: Option<Price<R>>,
    usd: Cost,
) -> Seq<Seq<char>> {
    (if counts.transcribe > 0 {
        seq![transcribe_line_of(counts, audio_seconds, audio_known, price, usd)]
    } else {
        Seq::empty()
    }) + not_sent_lines(counts)
}

/// The plan's first line. `audio_seconds` is the known audio's length rounded to whole
/// seconds, `audio_known` whether any length is known, `price` the price once looked up and
/// `usd` what the known audio costs at it.
fn transcribe_line<R>(counts: PlanCounts, audio_seconds: u64, audio_known: bool, price: &Option<Price<R>>, usd: Cost) -> (line: String)
    ensures
        line@ == transcribe_line_of(counts, audio_seconds, audio_known, *price, usd),
{
    proof {
        reveal_strlit(" to transcribe, ");
        reveal_strlit(" of audio");
        reveal_strlit(" + ");
        reveal_strlit(" of unknown length");
        reveal_strlit(" · ");
        reveal_strlit("cost unknown");
        reveal_strlit("Estimating…");
        reveal_strlit("about ");
        reveal_strlit(" (typical price)");
    }
    let mut line = counted_string(counts.transcribe, "video", "videos");
    line.append(" to transcribe, ");
    let length = audio_length_text(audio_seconds);
    line.append(length.as_str());
    line.append(" of audio");
    if counts.unknown_length > 0 {
        line.append(" + ");
        let unknown = decimal_string(counts.unknown_length);
        line.append(unknown.as_str());
        line.append(" of unknown length");
    }
    line.append(" · ");
    if !audio_known {
        line.append("cost unknown");
    } else {
        match price {
            None => line.append("Estimating…"),
            Some(p) => {
                line.append("about ");
                let dollars = usd_text(usd);
                line.append(dollars.as_str());
                match p {
                    Price::Learned(_) => {},
                    _ => line.append(" (typical price)"),
                }
            },
        }
    }
    proof {
        assert(line@ =~= transcribe_line_of(counts, audio_seconds, audio_known, *price, usd));
    }
    line
}

/// The plan as the panel shows it, line by line.
pub fn plan_lines<R>(counts: PlanCounts, audio_seconds: u64, audio_known: bool, price: &Option<Price<R>>, usd: Cost) -> (lines: Vec<String>)
    ensures
        texts(lines@) == plan_lines_of(counts, audio_seconds, audio_known, *price, usd),
{
    let mut lines = not_sent(counts);
    if counts.transcribe > 0 {
        let first = transcribe_line(counts, audio_seconds, audio_known, price, usd);
        lines.insert(0, first);
        proof {
            assert(texts(lines@) =~= plan_lines_of(counts, audio_seconds, audio_known, *price, usd));
        }
    } else {
        proof {
            assert(texts(lines@) =~= plan_lines_of(counts, audio_seconds, audio_known, *price, usd));
        }
    }
    lines
}

/// A length given in milliseconds, rounded to whole seconds (half a second rounds up).
pub open spec fn rounded_seconds(ms: u64) -> u64 {
    (ms / 1000 + if ms % 1000 >= 500 {
        1u64
    } else {
        0u64
    }) as u64
}

/// What a run spent and the uploads it left on Soniox, joined by ". ": "Soniox: at least
/// 41 min · about $0.20", "2 uploads could not be deleted on Soniox (see the log)"; `None`
/// when nothing was sent and nothing was left.
pub open spec fn report_of(uploaded_ms: u64, usd: Cost, failed_deletes: usize) -> Option<Seq<char>> {
    let spent = "Soniox: at least "@ + audio_length_text_of(rounded_seconds(uploaded_ms)) + " · about "@
        + usd_text_of(usd);
    let left = counted(failed_deletes as nat, "upload"@, "uploads"@) + " could not be deleted on Soniox (see the log)"@;
    if uploaded_ms > 0 && failed_deletes > 0 {
        Some(spent + ". "@ + left)
    } else if uploaded_ms > 0 {
        Some(spent)
    } else if failed_deletes > 0 {
        Some(left)
    } else {
        None
    }
}

/// What a run spent, from the milliseconds of audio it uploaded and what they cost (`usd`),
/// and the uploads it could not delete on Soniox.
pub fn job_report(uploaded_ms: u64, usd: Cost, failed_deletes: usize) -> (report: Option<String>)
    ensures
        match report {
            Some(r) => report_of(uploaded_ms, usd, failed_deletes) == Some(r@),
            None => report_of(uploaded_ms, usd, failed_deletes) is None,
        },
{
    proof {
        reveal_strlit("Soniox: at least ");
        reveal_strlit(" · about ");
        reveal_strlit(" could not be deleted on Soniox (see the log)");
        reveal_strlit(". ");
    }
    let seconds: u64 = uploaded_ms / 1000 + if uploaded_ms % 1000 >= 500 {
        1u64
    } else {
        0u64
    };
    let mut spent = String::from_str("Soniox: at least ");
    let length = audio_length_text(seconds);
    spent.append(length.as_str());
    spent.append(" · about ");
    let dollars = usd_text(usd);
    spent.append(dollars.as_str());
    let mut left = counted_string(failed_deletes, "upload", "uploads");
    left.append(" could not be deleted on Soniox (see the log)");
    if uploaded_ms > 0 && failed_deletes > 0 {
        spent.append(". ");
        spent.append(left.as_str());
        Some(spent)
    } else if uploaded_ms > 0 {
        Some(spent)
    } else if failed_deletes > 0 {
        Some(left)
    } else {
        None
    }
}

/// The lowercase form of a string, as std's `str::to_lowercase` gives it (Unicode's lowercase
/// mapping, the same on every machine).
pub uninterp spec fn lowercase(s: Seq<char>) -> Seq<char>;

/// std's `str::to_lowercase`. Its result is named, not stated: it is Unicode's lowercase
/// mapping of the string, which takes tables to write down.
#[verifier::external_body]
fn to_lowercase(s: &str) -> (lower: String)
    ensures
        lower@ == lowercase(s@),
{
    s.to_lowercase()
}

/// Whether key `i` of `keys` is one an earlier key already has.
pub open spec fn repeats_an_earlier(keys: Seq<Seq<char>>, i: int) -> bool {
    exists|j: int| 0 <= j < i && keys[j] == keys[i]
}

/// The views of `strings`.
pub open spec fn views(strings: Seq<String>) -> Seq<Seq<char>> {
    strings.map_values(|s: String| s@)
}

/// For each of `keys`, whether an earlier one is the same: the first of equal keys keeps it.
pub fn repeated_keys(keys: &[String]) -> (repeated: Vec<bool>)
    ensures
        repeated@.len() == keys@.len(),
        forall|i: int| 0 <= i < keys@.len() ==> #[trigger] repeated@[i] == repeats_an_earlier(views(keys@), i),
{
    let mut repeated: Vec<bool> = Vec::new();
    let mut i: usize = 0;
    while i < keys.len()
        invariant
            i <= keys@.len(),
            repeated@.len() == i,
            forall|k: int| 0 <= k < i ==> #[trigger] repeated@[k] == repeats_an_earlier(views(keys@), k),
        decreases keys@.len() - i,
    {
        let mut found = false;
        let mut j: usize = 0;
        while j < i && !found
            invariant
                j <= i < keys@.len(),
                found ==> repeats_an_earlier(views(keys@), i as int),
                !found ==> forall|k: int| 0 <= k < j ==> views(keys@)[k] != views(keys@)[i as int],
            decreases i - j,
        {
            if str_eq(keys[j].as_str(), keys[i].as_str()) {
                found = true;
                assert(views(keys@)[j as int] == views(keys@)[i as int]);
            }
            j = j + 1;
        }
        repeated.push(found);
        i = i + 1;
    }
    repeated
}

/// Whether video `i` would write subtitles under a name an earlier video already takes:
/// names are compared without regard to case (`clip.MP4` and `clip.mov` both write `clip.srt`
/// on Windows).
pub open spec fn shares_a_subtitle_name(outputs: Seq<Seq<char>>, i: int) -> bool {
    exists|j: int| 0 <= j < i && lowercase(outputs[j]) == lowercase(outputs[i])
}

/// For each video, in list order, given the path of the subtitles it would write: whether an
/// earlier video already takes that name. The first of them keeps it; the others are left out
/// of the plan.
pub fn shared_subtitle_names(outputs: &[String]) -> (shared: Vec<bool>)
    ensures
        shared@.len() == outputs@.len(),
        forall|i: int| 0 <= i < outputs@.len() ==> #[trigger] shared@[i] == shares_a_subtitle_name(views(outputs@), i),
{
    let mut keys: Vec<String> = Vec::new();
    let mut i: usize = 0;
    while i < outputs.len()
        invariant
            i <= outputs@.len(),
            keys@.len() == i,
            forall|k: int| 0 <= k < i ==> #[trigger] keys@[k]@ == lowercase(outputs@[k]@),
        decreases outputs@.len() - i,
    {
        keys.push(to_lowercase(outputs[i].as_str()));
        i = i + 1;
    }
    let shared = repeated_keys(keys.as_slice());
    proof {
        assert forall|i: int| 0 <= i < outputs@.len() implies #[trigger] shared@[i] == shares_a_subtitle_name(
            views(outputs@),
            i,
        ) by {
            assert(shared@[i] == repeats_an_earlier(views(keys@), i));
            if repeats_an_earlier(views(keys@), i) {
                let j = choose|j: int| 0 <= j < i && views(keys@)[j] == views(keys@)[i];
                assert(lowercase(views(outputs@)[j]) == lowercase(views(outputs@)[i]));
            }
            if shares_a_subtitle_name(views(outputs@), i) {
                let j = choose|j: int| 0 <= j < i && lowercase(views(outputs@)[j]) == lowercase(views(outputs@)[i]);
                assert(views(keys@)[j] == views(keys@)[i]);
            }
        }
    }
    shared
}

/// What the audio length says of the seconds it is written from: under a minute, the
/// seconds themselves; under an hour, the minutes nearest to them (within half a minute);
/// from an hour on, the whole hours and the whole minutes after them, so that the length is
/// at least that many hours and minutes and less than a minute more.
pub proof fn law_audio_length_names_the_time(seconds: u64)
    ensures
        seconds < 60 ==> audio_length_text_of(seconds) == decimal(seconds as nat) + " s"@,
        60 <= seconds < 3600 ==> exists|m: nat|
            m * 60 <= seconds + 30 < m * 60 + 60 && audio_length_text_of(seconds) == #[trigger] decimal(m) + " min"@,
        seconds >= 3600 ==> exists|h: nat, m: nat|
            #![trigger decimal(h), decimal(m)]
            m < 60 && h * 3600 + m * 60 <= seconds < h * 3600 + m * 60 + 60
                && audio_length_text_of(seconds) == decimal(h) + " h "@ + decimal(m) + " min"@,
{
    if 60 <= seconds < 3600 {
        let m = ((seconds + 30) / 60) as nat;
        assert(m * 60 <= seconds + 30 < m * 60 + 60);
        assert(audio_length_text_of(seconds) == decimal(m) + " min"@);
    }
    if seconds >= 3600 {
        let h = (seconds / 3600) as nat;
        let m = (seconds / 60 % 60) as nat;
        assert(h * 3600 + m * 60 <= seconds < h * 3600 + m * 60 + 60) by (nonlinear_arith)
            requires
                h == seconds / 3600,
                m == seconds / 60 % 60,
        ;
        assert(m < 60);
        assert(audio_length_text_of(seconds) == decimal(h) + " h "@ + decimal(m) + " min"@);
    }
}

/// A plan is asked for once per change: right after a request, there is none until the next
/// change.
pub proof fn law_plan_asked_for_once<P, R>(v: OptionsView<P, R>)
    ensures
        plan_requested(plan_requested(v).0).1 is None,
{
}

/// After a change, an answer for an older generation is dropped: the plan stays unknown.
pub proof fn law_stale_plan_dropped<P, R>(v: OptionsView<P, R>, old_generation: u64, counts: PlanCounts, plan: P)
    requires
        v.generation < u64::MAX,
        old_generation <= v.generation,
    ensures
        plan_answered(invalidated(v), old_generation, counts, plan).plan is None,
{
}

/// The answer to the request made after a change is taken.
pub proof fn law_current_plan_taken<P, R>(v: OptionsView<P, R>, counts: PlanCounts, plan: P)
    requires
        v.wanted,
    ensures
        plan_requested(v).1 matches Some(request) && plan_answered(plan_requested(v).0, request.generation, counts, plan).plan
            == Some((counts, plan)),
{
}

/// The price of a key is asked for once, until a key is saved again.
pub proof fn law_price_asked_for_once_per_key<P, R>(v: OptionsView<P, R>)
    ensures
        price_requested(price_requested(v).0).1 is None,
        v.key is Present ==> price_requested(after_message(price_requested(v).0, Message::KeySaved)).1 is Some,
{
}

/// Nothing runs without a known plan with work, or with a refused key.
pub proof fn law_nothing_runs_without_plan_or_with_a_refused_key<P, R>(v: OptionsView<P, R>)
    ensures
        v.plan is None ==> !can_run(v),
        current_price(v) matches Some(Price::Rejected) ==> !can_run(v),
        v.plan matches Some((counts, _)) && !has_work(counts) ==> !can_run(v),
{
}

} // verus!
