//! "Summarize subtitles with AI": sends each checked video's subtitles to the AI model and
//! writes a short summary into the video's comment, in its AI block. The cost is estimated
//! before anything is sent, and the run needs that estimate: an estimate is numbered, so the
//! answer to one asked for before the checks changed is dropped.

use vstd::prelude::*;

use crate::text::{counted, counted_string};

verus! {

/// The action's name, not translated.
pub const LABEL: &'static str = "Summarize subtitles with AI";

/// The AI settings a run reads: the model and the language of the summaries, by their index
/// in the settings' lists.
#[derive(Debug, Clone, Copy, PartialEq, Eq, Structural)]
pub struct AiSettings {
    pub model: u32,
    pub language: u32,
}

/// What a run does, fixed when it starts.
#[derive(Debug, Clone, Copy, PartialEq, Eq, Structural)]
pub struct Job {
    pub model: u32,
    pub language: u32,
    /// Summarize videos that already have an AI summary again.
    pub redo: bool,
}

/// What a run on the checked files would send and skip, and the tokens it would use.
#[derive(Debug, Clone, Copy, PartialEq, Eq, Structural, Default)]
pub struct SummaryEstimate {
    pub videos: usize,
    pub without_subtitles: usize,
    pub already_summarized: usize,
    pub input_tokens: u64,
    pub output_tokens: u64,
}

#[derive(Debug, Clone, Copy, PartialEq, Eq, Structural)]
pub enum Message {
    /// Redo videos that already have an AI summary.
    SetRedo(bool),
    /// Estimate the cost for the checked files; the workspace, which knows their paths, works
    /// it out (see [`Options::pending_estimate`]).
    Estimate,
    /// The estimate numbered by the first field is ready.
    Estimated(u64, SummaryEstimate),
}

/// Where the estimate stands.
#[derive(Debug, Clone, Copy, PartialEq, Eq, Structural)]
pub enum EstimateState {
    NotAsked,
    /// Being worked out; the number tells a stale answer from the current one.
    Running(u64),
    Ready(SummaryEstimate),
}

/// The options and the estimate, as a model.
pub struct OptionsView {
    pub redo: bool,
    pub estimate: EstimateState,
    /// Number of the last estimate asked for.
    pub requests: u64,
}

#[derive(Debug, Clone, Copy)]
pub struct Options {
    redo: bool,
    estimate: EstimateState,
    requests: u64,
}

impl View for Options {
    type V = OptionsView;

    closed spec fn view(&self) -> OptionsView {
        OptionsView { redo: self.redo, estimate: self.estimate, requests: self.requests }
    }
}

/// The options after a message: a change of redo counts other videos, so the estimate goes; a
/// new estimate is numbered; an answer is taken only for the estimate being worked out.
pub open spec fn after_message(v: OptionsView, message: Message) -> OptionsView {
    match message {
        Message::SetRedo(redo) => OptionsView { redo, estimate: EstimateState::NotAsked, ..v },
        Message::Estimate => OptionsView {
            requests: (v.requests + 1) as u64,
            estimate: EstimateState::Running((v.requests + 1) as u64),
            ..v
        },
        Message::Estimated(request, estimate) => if v.estimate == EstimateState::Running(request) {
            OptionsView { estimate: EstimateState::Ready(estimate), ..v }
        } else {
            v
        },
    }
}

/// Whether a run can start: the estimate is shown and has videos to send, and a key is saved.
pub open spec fn can_run(v: OptionsView, key_saved: bool) -> bool {
    key_saved && (v.estimate matches EstimateState::Ready(e) && e.videos > 0)
}

impl Options {
    /// No redo, no estimate.
    pub fn new() -> (options: Self)
        ensures
            options@ == (OptionsView { redo: false, estimate: EstimateState::NotAsked, requests: 0 }),
    {
        Options { redo: false, estimate: EstimateState::NotAsked, requests: 0 }
    }

    pub fn update(&mut self, message: Message)
        requires
            message is Estimate ==> old(self)@.requests < u64::MAX,
        ensures
            final(self)@ == after_message(old(self)@, message),
    {
        match message {
            Message::SetRedo(redo) => {
                self.redo = redo;
                self.estimate = EstimateState::NotAsked;
            },
            Message::Estimate => {
                self.requests = self.requests + 1;
                self.estimate = EstimateState::Running(self.requests);
            },
            Message::Estimated(request, estimate) => {
                if self.estimate == EstimateState::Running(request) {
                    self.estimate = EstimateState::Ready(estimate);
                }
            },
        }
    }

    /// The estimate, as it stands.
    pub fn estimate(&self) -> (estimate: EstimateState)
        ensures
            estimate == self@.estimate,
    {
        self.estimate
    }

    /// The estimate counted other files: it has to be worked out again.
    pub fn checks_changed(&mut self)
        ensures
            final(self)@ == (OptionsView { estimate: EstimateState::NotAsked, ..old(self)@ }),
    {
        self.estimate = EstimateState::NotAsked;
    }

    /// The estimate being worked out, as its number and the run it is for.
    pub fn pending_estimate(&self, settings: AiSettings) -> (pending: Option<(u64, Job)>)
        ensures
            pending == (match self@.estimate {
                EstimateState::Running(request) => Some(
                    (request, Job { model: settings.model, language: settings.language, redo: self@.redo }),
                ),
                _ => None,
            }),
    {
        match self.estimate {
            EstimateState::Running(request) => Some(
                (request, Job { model: settings.model, language: settings.language, redo: self.redo }),
            ),
            _ => None,
        }
    }

    /// The run, once the estimate is shown and has videos to send and a key is saved
    /// (`key_saved`).
    pub fn operation(&self, settings: AiSettings, key_saved: bool) -> (job: Option<Job>)
        ensures
            job is Some <==> can_run(self@, key_saved),
            job matches Some(j) ==> j == (Job { model: settings.model, language: settings.language, redo: self@.redo }),
    {
        let ready = match self.estimate {
            EstimateState::Ready(e) => e.videos > 0,
            _ => false,
        };
        if ready && key_saved {
            Some(Job { model: settings.model, language: settings.language, redo: self.redo })
        } else {
            None
        }
    }
}

/// "3 without subtitles and 2 already summarized are skipped."; nothing when none is.
pub open spec fn skipped_text(e: SummaryEstimate) -> Option<Seq<char>> {
    let without = counted(e.without_subtitles as nat, "without subtitles"@, "without subtitles"@);
    let summarized = counted(e.already_summarized as nat, "already summarized"@, "already summarized"@);
    if e.without_subtitles > 0 && e.already_summarized > 0 {
        Some(without + " and "@ + summarized + " are skipped."@)
    } else if e.without_subtitles > 0 {
        Some(without + " are skipped."@)
    } else if e.already_summarized > 0 {
        Some(summarized + " are skipped."@)
    } else {
        None
    }
}

/// The line that says which videos are skipped.
pub fn skipped_line(estimate: SummaryEstimate) -> (line: Option<String>)
    ensures
        match line {
            Some(l) => skipped_text(estimate) == Some(l@),
            None => skipped_text(estimate) is None,
        },
{
    proof {
        reveal_strlit(" and ");
        reveal_strlit(" are skipped.");
    }
    let without = estimate.without_subtitles > 0;
    let summarized = estimate.already_summarized > 0;
    if !without && !summarized {
        return None;
    }
    let mut line = if without {
        counted_string(estimate.without_subtitles, "without subtitles", "without subtitles")
    } else {
        counted_string(estimate.already_summarized, "already summarized", "already summarized")
    };
    if without && summarized {
        line.append(" and ");
        let more = counted_string(estimate.already_summarized, "already summarized", "already summarized");
        line.append(more.as_str());
    }
    line.append(" are skipped.");
    Some(line)
}

/// An answer for an estimate asked for before the last change is dropped: the new one is
/// still being worked out.
pub proof fn law_a_stale_estimate_is_dropped(v: OptionsView, estimate: SummaryEstimate)
    requires
        v.requests < u64::MAX - 1,
    ensures
        ({
            let first = after_message(v, Message::Estimate);
            let second = after_message(after_message(first, Message::SetRedo(first.redo)), Message::Estimate);
            &&& after_message(second, Message::Estimated(first.requests, estimate)).estimate
                == EstimateState::Running(second.requests)
            &&& after_message(second, Message::Estimated(second.requests, estimate)).estimate
                == EstimateState::Ready(estimate)
        }),
{
}

/// Nothing runs without an estimate that has videos to send.
pub proof fn law_it_does_not_run_without_an_estimate(v: OptionsView, key_saved: bool)
    requires
        !(v.estimate is Ready),
    ensures
        !can_run(v, key_saved),
{
}

} // verus!
