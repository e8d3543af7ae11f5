//! The open file's comment in the file workspace: the editor holds the comment's own text, and
//! the AI description is kept apart from it (shown folded, removed only after asking) and
//! joined back to it for saving. Editing the comment may check or uncheck the commented tag.

use vstd::prelude::*;
use vstd::string::*;

use crate::text::push_char;

verus! {

/// `text` without the line breaks at its end: the editor's text ends in one that is not the
/// user's.
pub open spec fn without_trailing_newlines(text: Seq<char>) -> Seq<char>
    decreases text.len(),
{
    if text.len() > 0 && text.last() == '\n' {
        without_trailing_newlines(text.drop_last())
    } else {
        text
    }
}

/// The editor's text as it is stored: without the line breaks at its end.
pub fn editor_text(text: &str) -> (stored: String)
    ensures
        stored@ == without_trailing_newlines(text@),
{
    let n = text.unicode_len();
    let mut end = n;
    proof {
        assert(text@.take(n as int) =~= text@);
    }
    while end > 0 && text.get_char(end - 1) == '\n'
        invariant
            n == text@.len(),
            end <= n,
            without_trailing_newlines(text@.take(end as int)) == without_trailing_newlines(text@),
        decreases end,
    {
        proof {
            assert(text@.take(end as int).drop_last() =~= text@.take(end - 1));
        }
        end = end - 1;
    }
    let mut stored = String::new();
    let mut i: usize = 0;
    while i < end
        invariant
            n == text@.len(),
            end <= n,
            i <= end,
            stored@ == text@.take(i as int),
        decreases end - i,
    {
        push_char(&mut stored, text.get_char(i));
        proof {
            assert(text@.take(i + 1) =~= text@.take(i as int).push(text@[i as int]));
        }
        i = i + 1;
    }
    proof {
        let t = text@.take(end as int);
        assert(t.len() == 0 || t.last() != '\n');
        if n > 0 && end == n {
            assert(text@.take(n as int) =~= text@);
        }
        assert(without_trailing_newlines(t) == t);
    }
    stored
}

/// How an edit of the comment changes the commented tag: checked when the editor's own text
/// goes from empty to non-empty, unchecked when it is cleared, left to the user otherwise. The
/// AI description does not count.
pub open spec fn commented_tag_after_edit(was_empty: bool, is_empty: bool) -> Option<bool> {
    if was_empty == is_empty { None } else { Some(!is_empty) }
}

/// Whether to check (`Some(true)`) or uncheck (`Some(false)`) the commented tag after an edit
/// of the comment, given whether the editor's own text was empty before and is now; `None`
/// leaves it as it is.
pub fn commented_tag_change(was_empty: bool, is_empty: bool) -> (change: Option<bool>)
    ensures
        change == commented_tag_after_edit(was_empty, is_empty),
{
    if was_empty == is_empty {
        None
    } else {
        Some(!is_empty)
    }
}

/// Messages of the AI description under the comment editor.
#[derive(Debug, Clone, Copy, PartialEq, Eq, Structural)]
pub enum AiBlockMessage {
    ToggleSegments,
    AskRemove,
    CancelRemove,
    ConfirmRemove,
}

/// The AI description of the open file's comment, and how it is shown.
pub struct AiBlockView {
    pub ai_block: Seq<char>,
    pub show_ai_segments: bool,
    pub confirm_remove_ai: bool,
}

/// The comment's AI description, kept apart from the editor's text: empty when there is none.
#[derive(Debug, Clone)]
pub struct AiBlockState {
    ai_block: String,
    show_ai_segments: bool,
    confirm_remove_ai: bool,
}

impl View for AiBlockState {
    type V = AiBlockView;

    closed spec fn view(&self) -> AiBlockView {
        AiBlockView {
            ai_block: self.ai_block@,
            show_ai_segments: self.show_ai_segments,
            confirm_remove_ai: self.confirm_remove_ai,
        }
    }
}

/// The AI description after a message, and whether the comment must be stored again.
pub open spec fn ai_block_after(v: AiBlockView, message: AiBlockMessage) -> (AiBlockView, bool) {
    match message {
        AiBlockMessage::ToggleSegments => (AiBlockView { show_ai_segments: !v.show_ai_segments, ..v }, false),
        AiBlockMessage::AskRemove => (AiBlockView { confirm_remove_ai: true, ..v }, false),
        AiBlockMessage::CancelRemove => (AiBlockView { confirm_remove_ai: false, ..v }, false),
        AiBlockMessage::ConfirmRemove => (
            AiBlockView { ai_block: Seq::empty(), confirm_remove_ai: false, ..v },
            true,
        ),
    }
}

impl AiBlockState {
    /// The AI description of a file just opened (`ai_block`, empty when it has none): shown
    /// folded, nothing asked.
    pub fn new(ai_block: String) -> (state: Self)
        ensures
            state@ == (AiBlockView { ai_block: ai_block@, show_ai_segments: false, confirm_remove_ai: false }),
    {
        AiBlockState { ai_block, show_ai_segments: false, confirm_remove_ai: false }
    }

    /// Another file was opened: its AI description, and nothing asked (the folding stays).
    pub fn open(&mut self, ai_block: String)
        ensures
            final(self)@ == (AiBlockView { ai_block: ai_block@, confirm_remove_ai: false, ..old(self)@ }),
    {
        self.ai_block = ai_block;
        self.confirm_remove_ai = false;
    }

    /// The AI description; empty when it has none.
    pub fn ai_block(&self) -> (block: &str)
        ensures
            block@ == self@.ai_block,
    {
        self.ai_block.as_str()
    }

    /// Whether the AI description shows its segments, not only its summary.
    pub fn show_ai_segments(&self) -> (shown: bool)
        ensures
            shown == self@.show_ai_segments,
    {
        self.show_ai_segments
    }

    /// Whether "Remove the AI description?" is being asked.
    pub fn confirm_remove_ai(&self) -> (asking: bool)
        ensures
            asking == self@.confirm_remove_ai,
    {
        self.confirm_remove_ai
    }

    /// Show or hide the segments, or remove the description after asking. Returns whether the
    /// comment must be stored again (the editor's text alone, once the description is removed).
    pub fn update(&mut self, message: AiBlockMessage) -> (store_again: bool)
        ensures
            (final(self)@, store_again) == ai_block_after(old(self)@, message),
    {
        match message {
            AiBlockMessage::ToggleSegments => {
                self.show_ai_segments = !self.show_ai_segments;
                false
            },
            AiBlockMessage::AskRemove => {
                self.confirm_remove_ai = true;
                false
            },
            AiBlockMessage::CancelRemove => {
                self.confirm_remove_ai = false;
                false
            },
            AiBlockMessage::ConfirmRemove => {
                self.confirm_remove_ai = false;
                self.ai_block = String::new();
                true
            },
        }
    }
}

/// Cancelling the question keeps the description as it was.
pub proof fn law_cancel_keeps_the_description(v: AiBlockView)
    ensures
        ai_block_after(ai_block_after(v, AiBlockMessage::AskRemove).0, AiBlockMessage::CancelRemove).0
            == (AiBlockView { confirm_remove_ai: false, ..v }),
{
}

/// Only a confirmed removal takes the description out, and it asks for the comment to be
/// stored without it.
pub proof fn law_only_a_confirmed_removal_removes(v: AiBlockView, message: AiBlockMessage)
    ensures
        message != AiBlockMessage::ConfirmRemove ==> ai_block_after(v, message).0.ai_block == v.ai_block
            && !ai_block_after(v, message).1,
        message == AiBlockMessage::ConfirmRemove ==> ai_block_after(v, message).0.ai_block.len() == 0
            && ai_block_after(v, message).1,
{
}

/// An edit that keeps the editor's text empty, or non-empty, leaves the commented tag to the
/// user; one that fills or clears it checks or unchecks it.
pub proof fn law_commented_tag_follows_the_editors_text(was_empty: bool, is_empty: bool)
    ensures
        was_empty == is_empty ==> commented_tag_after_edit(was_empty, is_empty) is None,
        was_empty && !is_empty ==> commented_tag_after_edit(was_empty, is_empty) == Some(true),
        !was_empty && is_empty ==> commented_tag_after_edit(was_empty, is_empty) == Some(false),
{
}

/// How far apart two positions of the video are, in milliseconds.
pub open spec fn distance_ms(a: u64, b: u64) -> nat {
    if a >= b {
        (a - b) as nat
    } else {
        (b - a) as nat
    }
}

/// Whether a screenshot at `position_ms` would repeat one of `existing`: one lies within
/// 100 ms of it.
pub open spec fn repeats_a_screenshot(existing: Seq<u64>, position_ms: u64) -> bool {
    exists|i: int| 0 <= i < existing.len() && distance_ms(#[trigger] existing[i], position_ms) < 100
}

/// The comment after a screenshot taken at the time `time_text`: the time and a colon,
/// on a line of their own after any text already there, for the user to write on.
pub open spec fn comment_with_screenshot(comment: Seq<char>, time_text: Seq<char>) -> Seq<char> {
    if comment.len() == 0 {
        time_text + ": "@
    } else {
        comment + "\n"@ + time_text + ": "@
    }
}

/// The comment after a screenshot at `position_ms`, shown as `time_text`, of a video whose
/// screenshots are at `existing`; `None` when the screenshot repeats one of them and is not
/// taken.
pub fn screenshot_comment(existing: &[u64], position_ms: u64, comment: &str, time_text: &str) -> (new_comment: Option<String>)
    ensures
        match new_comment {
            None => repeats_a_screenshot(existing@, position_ms),
            Some(c) => !repeats_a_screenshot(existing@, position_ms) && c@ == comment_with_screenshot(
                comment@,
                time_text@,
            ),
        },
{
    let mut i: usize = 0;
    while i < existing.len()
        invariant
            i <= existing.len(),
            forall|k: int| 0 <= k < i ==> distance_ms(#[trigger] existing@[k], position_ms) >= 100,
        decreases existing.len() - i,
    {
        let at = existing[i];
        let apart = if at >= position_ms {
            at - position_ms
        } else {
            position_ms - at
        };
        if apart < 100 {
            assert(distance_ms(existing@[i as int], position_ms) < 100);
            return None;
        }
        i = i + 1;
    }
    proof {
        reveal_strlit(": ");
        reveal_strlit("\n");
    }
    let mut c = comment.to_owned();
    if comment.unicode_len() > 0 {
        c.append("\n");
    }
    c.append(time_text);
    c.append(": ");
    Some(c)
}

/// A screenshot's time goes at the end of the comment: a comment with text keeps it all, in
/// front and unchanged, and gets a line break, the time and ": " after it; an empty comment
/// becomes the time and ": ".
pub proof fn law_the_time_goes_after_the_comment(comment: Seq<char>, time_text: Seq<char>)
    ensures
        comment.len() > 0 ==> comment_with_screenshot(comment, time_text).take(comment.len() as int) == comment,
        comment.len() > 0 ==> comment_with_screenshot(comment, time_text).skip(comment.len() as int) == "\n"@
            + time_text + ": "@,
        comment.len() == 0 ==> comment_with_screenshot(comment, time_text) == time_text + ": "@,
{
    let c = comment_with_screenshot(comment, time_text);
    if comment.len() > 0 {
        assert(c.take(comment.len() as int) =~= comment);
        assert(c.skip(comment.len() as int) =~= "\n"@ + time_text + ": "@);
    }
}

/// A screenshot repeats another exactly when one is taken less than 100 ms before or after it.
pub proof fn law_a_screenshot_repeats_one_within_100_ms(existing: Seq<u64>, position_ms: u64)
    ensures
        repeats_a_screenshot(existing, position_ms) <==> exists|i: int|
            0 <= i < existing.len() && position_ms - 100 < #[trigger] existing[i] < position_ms + 100,
{
    if repeats_a_screenshot(existing, position_ms) {
        let i = choose|i: int| 0 <= i < existing.len() && distance_ms(#[trigger] existing[i], position_ms) < 100;
        assert(position_ms - 100 < existing[i] < position_ms + 100);
    }
    if exists|i: int| 0 <= i < existing.len() && position_ms - 100 < #[trigger] existing[i] < position_ms + 100 {
        let i = choose|i: int| 0 <= i < existing.len() && position_ms - 100 < #[trigger] existing[i] < position_ms + 100;
        assert(distance_ms(existing[i], position_ms) < 100);
    }
}

} // verus!
