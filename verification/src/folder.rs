//! The folder list: what its rows show and do (the comment's first line, the check box's
//! outcome after a batch job, clicks), the filter dropdown of the controls bar (one row per
//! filter, with its match count; picking a row turns it over), and the search text a key typed
//! anywhere in the window leaves behind.

use vstd::prelude::*;

use crate::batch::state::ItemStatus;
use crate::text::{decimal, decimal_string, is_white_space, push_char, trimmed, white_space};

verus! {

/// The folder list filters: whether each is on, and how many files in the folder match it.
#[derive(Debug, Clone, Copy, PartialEq, Eq, Structural)]
pub struct ListFilters {
    pub untagged_only: bool,
    pub untagged_count: usize,
    pub subtitled_only: bool,
    pub subtitled_count: usize,
    pub commented_only: bool,
    pub commented_count: usize,
}

impl Default for ListFilters {
    /// Every filter off, nothing counted.
    fn default() -> (filters: Self)
        ensures
            filters == (ListFilters {
                untagged_only: false,
                untagged_count: 0,
                subtitled_only: false,
                subtitled_count: 0,
                commented_only: false,
                commented_count: 0,
            }),
    {
        ListFilters {
            untagged_only: false,
            untagged_count: 0,
            subtitled_only: false,
            subtitled_count: 0,
            commented_only: false,
            commented_count: 0,
        }
    }
}

/// Which filter a dropdown row controls.
#[derive(Debug, Clone, Copy, PartialEq, Eq, Structural)]
pub enum FilterKind {
    Untagged,
    Subtitles,
    Comments,
}

/// What picking a row asks of the folder list: show only the matching files, or every file.
#[derive(Debug, Clone, Copy, PartialEq, Eq, Structural)]
pub enum FilterChange {
    SetUntaggedOnly(bool),
    SetSubtitledOnly(bool),
    SetCommentedOnly(bool),
}

/// The Fluent message id of a filter's name.
pub open spec fn filter_label(kind: FilterKind) -> Seq<char> {
    match kind {
        FilterKind::Untagged => "folder-controls-filter-untagged"@,
        FilterKind::Subtitles => "folder-controls-filter-subtitles"@,
        FilterKind::Comments => "folder-controls-filter-comments"@,
    }
}

/// The change that turns the filter `kind` on or off.
pub open spec fn filter_change(kind: FilterKind, on: bool) -> FilterChange {
    match kind {
        FilterKind::Untagged => FilterChange::SetUntaggedOnly(on),
        FilterKind::Subtitles => FilterChange::SetSubtitledOnly(on),
        FilterKind::Comments => FilterChange::SetCommentedOnly(on),
    }
}

impl FilterKind {
    /// The Fluent message id of the filter's name; the app looks its text up in the user's
    /// language.
    pub fn label(self) -> (id: &'static str)
        ensures
            id@ == filter_label(self),
    {
        proof {
            reveal_strlit("folder-controls-filter-untagged");
            reveal_strlit("folder-controls-filter-subtitles");
            reveal_strlit("folder-controls-filter-comments");
        }
        match self {
            FilterKind::Untagged => "folder-controls-filter-untagged",
            FilterKind::Subtitles => "folder-controls-filter-subtitles",
            FilterKind::Comments => "folder-controls-filter-comments",
        }
    }

    /// The change that turns this filter on (`on`) or off.
    pub fn set(self, on: bool) -> (change: FilterChange)
        ensures
            change == filter_change(self, on),
    {
        match self {
            FilterKind::Untagged => FilterChange::SetUntaggedOnly(on),
            FilterKind::Subtitles => FilterChange::SetSubtitledOnly(on),
            FilterKind::Comments => FilterChange::SetCommentedOnly(on),
        }
    }
}

/// One row of the filter dropdown.
#[derive(Debug, Clone, Copy, PartialEq, Eq, Structural)]
pub struct FilterItem {
    pub kind: FilterKind,
    pub active: bool,
    pub count: usize,
}

/// The mark in front of a row: a check mark when its filter is on, blanks of about its width
/// when not.
pub open spec fn row_mark(active: bool) -> Seq<char> {
    if active { "✓"@ } else { "   "@ }
}

/// A row as the dropdown shows it: the mark, a space, the filter's name, two spaces and the
/// number of matching files.
pub open spec fn row_text(item: FilterItem, label: Seq<char>) -> Seq<char> {
    row_mark(item.active) + " "@ + label + "  "@ + decimal(item.count as nat)
}

impl FilterItem {
    /// What picking this row asks: its filter turned over.
    pub fn pick(self) -> (change: FilterChange)
        ensures
            change == filter_change(self.kind, !self.active),
    {
        self.kind.set(!self.active)
    }

    /// The row's text, with `label` the filter's name in the user's language.
    pub fn text(self, label: &str) -> (shown: String)
        ensures
            shown@ == row_text(self, label@),
    {
        proof {
            reveal_strlit("✓");
            reveal_strlit("   ");
            reveal_strlit(" ");
            reveal_strlit("  ");
        }
        let mut shown = String::from_str(if self.active { "✓" } else { "   " });
        shown.append(" ");
        shown.append(label);
        shown.append("  ");
        let count = decimal_string(self.count);
        shown.append(count.as_str());
        shown
    }
}

/// The rows of the dropdown, in the order they are listed.
pub open spec fn filter_items(filters: ListFilters) -> Seq<FilterItem> {
    seq![
        FilterItem { kind: FilterKind::Untagged, active: filters.untagged_only, count: filters.untagged_count },
        FilterItem { kind: FilterKind::Subtitles, active: filters.subtitled_only, count: filters.subtitled_count },
        FilterItem { kind: FilterKind::Comments, active: filters.commented_only, count: filters.commented_count },
    ]
}

/// How many filters are on.
pub open spec fn active_filters(filters: ListFilters) -> nat {
    (if filters.untagged_only { 1nat } else { 0nat }) + (if filters.subtitled_only { 1nat } else { 0nat })
        + (if filters.commented_only { 1nat } else { 0nat })
}

impl ListFilters {
    /// The dropdown's rows: untagged, subtitles, comments.
    pub fn items(self) -> (items: [FilterItem; 3])
        ensures
            items@ == filter_items(self),
    {
        let items = [
            FilterItem {
                kind: FilterKind::Untagged,
                active: self.untagged_only,
                count: self.untagged_count,
            },
            FilterItem {
                kind: FilterKind::Subtitles,
                active: self.subtitled_only,
                count: self.subtitled_count,
            },
            FilterItem {
                kind: FilterKind::Comments,
                active: self.commented_only,
                count: self.commented_count,
            },
        ];
        assert(items@ =~= filter_items(self));
        items
    }

    /// How many filters are on: the dropdown button shows it.
    pub fn active_count(self) -> (count: usize)
        ensures
            count == active_filters(self),
    {
        let mut count: usize = 0;
        if self.untagged_only {
            count = count + 1;
        }
        if self.subtitled_only {
            count = count + 1;
        }
        if self.commented_only {
            count = count + 1;
        }
        count
    }

    /// The Fluent message id of the dropdown button's text: the plain name while no filter is
    /// on, else the one that takes the number of filters on.
    pub fn placeholder(self) -> (id: &'static str)
        ensures
            id@ == (if active_filters(self) == 0 {
                "folder-controls-filter"@
            } else {
                "folder-controls-filter-active"@
            }),
    {
        proof {
            reveal_strlit("folder-controls-filter");
            reveal_strlit("folder-controls-filter-active");
        }
        if self.active_count() == 0 {
            "folder-controls-filter"
        } else {
            "folder-controls-filter-active"
        }
    }
}

/// A key pressed while no text field had the focus: the search bar takes the focus and the
/// key is played into it.
#[derive(Debug, Clone, Copy, PartialEq, Eq, Structural)]
pub enum GlobalSearchKey {
    Char(char),
    Backspace,
    Delete,
}

/// The search text after `key` is played into `query`: a character is added at the end;
/// Backspace and Delete take the last character away (the cursor is at the end), if any.
pub open spec fn query_after_key(query: Seq<char>, key: GlobalSearchKey) -> Seq<char> {
    match key {
        GlobalSearchKey::Char(c) => query.push(c),
        GlobalSearchKey::Backspace | GlobalSearchKey::Delete => {
            if query.len() == 0 { query } else { query.drop_last() }
        },
    }
}

/// The search text after `key` is played into `query`.
pub fn search_query_after_key(query: &str, key: GlobalSearchKey) -> (after: String)
    ensures
        after@ == query_after_key(query@, key),
{
    match key {
        GlobalSearchKey::Char(c) => {
            let mut after = String::from_str(query);
            push_char(&mut after, c);
            after
        },
        GlobalSearchKey::Backspace | GlobalSearchKey::Delete => {
            let n = query.unicode_len();
            let keep: usize = if n == 0 { 0 } else { n - 1 };
            let mut after = String::new();
            let mut i: usize = 0;
            while i < keep
                invariant
                    n == query@.len(),
                    keep == (if n == 0 { 0 } else { n - 1 }),
                    i <= keep,
                    after@ == query@.take(i as int),
                decreases keep - i,
            {
                push_char(&mut after, query.get_char(i));
                proof {
                    assert(query@.take(i + 1) =~= query@.take(i as int).push(query@[i as int]));
                }
                i = i + 1;
            }
            proof {
                if n == 0 {
                    assert(query@.take(0) =~= query@);
                } else {
                    assert(query@.take(keep as int) =~= query@.drop_last());
                }
            }
            after
        },
    }
}

/// The icon the list shows in place of rows: while a folder loads, before one is open, for an
/// empty folder.
pub open spec fn placeholder_icon(loading: bool, folder_open: bool, folder_empty: bool) -> Option<Seq<char>> {
    if loading {
        Some("⏳"@)
    } else if !folder_open {
        Some("📂"@)
    } else if folder_empty {
        Some("📭"@)
    } else {
        None
    }
}

/// The icon in place of the rows, if the list shows one.
pub fn list_placeholder(loading: bool, folder_open: bool, folder_empty: bool) -> (icon: Option<&'static str>)
    ensures
        match icon {
            Some(i) => placeholder_icon(loading, folder_open, folder_empty) == Some(i@),
            None => placeholder_icon(loading, folder_open, folder_empty) is None,
        },
{
    proof {
        reveal_strlit("⏳");
        reveal_strlit("📂");
        reveal_strlit("📭");
    }
    if loading {
        Some("⏳")
    } else if !folder_open {
        Some("📂")
    } else if folder_empty {
        Some("📭")
    } else {
        None
    }
}

/// Whether `s` is only white space.
fn all_white_space(s: &str) -> (blank: bool)
    ensures
        blank == (trimmed(s@).len() == 0),
{
    let n = s.unicode_len();
    let mut i: usize = 0;
    while i < n
        invariant
            n == s@.len(),
            i <= n,
            forall|j: int| 0 <= j < i ==> is_white_space(#[trigger] s@[j]),
        decreases n - i,
    {
        if !white_space(s.get_char(i)) {
            proof {
                crate::text::lemma_trimmed_keeps(s@, i as int);
            }
            return false;
        }
        i = i + 1;
    }
    proof {
        crate::text::lemma_trimmed_blank(s@);
    }
    true
}

/// The icon when a filter hides every file: a check mark when only the list filters hide
/// them, a magnifier when a name is searched for.
pub fn all_filtered_icon(name_filter: &str) -> (icon: &'static str)
    ensures
        icon@ == (if trimmed(name_filter@).len() == 0 { "✓"@ } else { "🔍"@ }),
{
    proof {
        reveal_strlit("✓");
        reveal_strlit("🔍");
    }
    if all_white_space(name_filter) { "✓" } else { "🔍" }
}

/// What a click on a row does: `select`, and `rename` on a double click. A running job locks
/// the list; batch mode previews files but does not rename them.
#[derive(Debug, Clone, Copy, PartialEq, Eq, Structural)]
pub struct RowClicks {
    pub select: bool,
    pub rename: bool,
}

/// What clicks on a row do, with the list `locked` by a running job and in `batch_mode`.
pub fn row_clicks(locked: bool, batch_mode: bool) -> (clicks: RowClicks)
    ensures
        clicks.select == !locked,
        clicks.rename == (!locked && !batch_mode),
{
    RowClicks { select: !locked, rename: !locked && !batch_mode }
}

/// How a row's check box shows what the last job did to its file.
#[derive(Debug, Clone, Copy, PartialEq, Eq, Structural)]
pub enum Outcome {
    /// Green: the file now is as the action wants it.
    Good,
    /// Red, with a cross.
    Failed,
}

/// The outcome a check box shows for a file of the job, with its mark and hint: nothing for a
/// file not reached yet or in work (most take milliseconds, so anything shown would only
/// flicker).
pub open spec fn check_outcome_of(status: Option<ItemStatus>) -> Option<(Outcome, Option<char>, Seq<char>)> {
    match status {
        Some(ItemStatus::Done) => Some((Outcome::Good, None, "Changed"@)),
        Some(ItemStatus::Skipped) => Some((Outcome::Good, None, "Nothing to change"@)),
        Some(ItemStatus::Failed) => Some((Outcome::Failed, Some('✕'), "Failed, see the log"@)),
        _ => None,
    }
}

/// The outcome a row's check box shows, for the file's `status` in the job.
pub fn check_outcome(status: Option<ItemStatus>) -> (shown: Option<(Outcome, Option<char>, &'static str)>)
    ensures
        match shown {
            Some((o, m, hint)) => check_outcome_of(status) == Some((o, m, hint@)),
            None => check_outcome_of(status) is None,
        },
{
    proof {
        reveal_strlit("Changed");
        reveal_strlit("Nothing to change");
        reveal_strlit("Failed, see the log");
    }
    match status {
        Some(ItemStatus::Done) => Some((Outcome::Good, None, "Changed")),
        Some(ItemStatus::Skipped) => Some((Outcome::Good, None, "Nothing to change")),
        Some(ItemStatus::Failed) => Some((Outcome::Failed, Some('✕'), "Failed, see the log")),
        _ => None,
    }
}

/// The spinner shown for a file whose comment is still loading, at animation frame `frame`.
pub open spec fn spinner_at(frame: nat) -> Seq<char> {
    let f = frame % 4;
    if f == 0 { "◐"@ } else if f == 1 { "◓"@ } else if f == 2 { "◑"@ } else { "◒"@ }
}

/// The spinner at animation frame `frame`: four frames, round and round.
pub fn spinner(frame: usize) -> (s: &'static str)
    ensures
        s@ == spinner_at(frame as nat),
{
    proof {
        reveal_strlit("◐");
        reveal_strlit("◓");
        reveal_strlit("◑");
        reveal_strlit("◒");
    }
    let f = frame % 4;
    if f == 0 { "◐" } else if f == 1 { "◓" } else if f == 2 { "◑" } else { "◒" }
}

/// Whether `i` is where the first line break of `text` stands.
pub open spec fn is_first_break(text: Seq<char>, i: int) -> bool {
    0 <= i < text.len() && text[i] == '\n' && forall|j: int| 0 <= j < i ==> text[j] != '\n'
}

/// The first line of `text`, as std's `str::lines` gives it: up to the first line break (a
/// `\r` before it is part of the break), or all of it without one; nothing for no text.
pub open spec fn first_line_of(text: Seq<char>) -> Seq<char> {
    if exists|i: int| is_first_break(text, i) {
        let i = choose|i: int| is_first_break(text, i);
        if i > 0 && text[i - 1] == '\r' { text.take(i - 1) } else { text.take(i) }
    } else {
        text
    }
}

/// The line under a file's name: the first line of its comment.
pub fn first_line(comment: &str) -> (line: String)
    ensures
        line@ == first_line_of(comment@),
{
    let n = comment.unicode_len();
    let mut i: usize = 0;
    while i < n && comment.get_char(i) != '\n'
        invariant
            n == comment@.len(),
            i <= n,
            forall|j: int| 0 <= j < i ==> comment@[j] != '\n',
        decreases n - i,
    {
        i = i + 1;
    }
    let end = if i < n && i > 0 && comment.get_char(i - 1) == '\r' { i - 1 } else { i };
    let mut line = String::new();
    let mut k: usize = 0;
    while k < end
        invariant
            n == comment@.len(),
            end <= i <= n,
            k <= end,
            line@ == comment@.take(k as int),
        decreases end - k,
    {
        push_char(&mut line, comment.get_char(k));
        proof {
            assert(comment@.take(k + 1) =~= comment@.take(k as int).push(comment@[k as int]));
        }
        k = k + 1;
    }
    proof {
        if i < n {
            assert(is_first_break(comment@, i as int));
            let c = choose|c: int| is_first_break(comment@, c);
            assert(c == i);
        } else {
            assert(!exists|c: int| is_first_break(comment@, c));
            assert(comment@.take(n as int) =~= comment@);
        }
    }
    line
}

/// "3 checked", in the batch header of the list.
pub open spec fn checked_label_text(n: nat) -> Seq<char> {
    decimal(n) + " checked"@
}

/// "3 checked".
pub fn checked_label(n: usize) -> (label: String)
    ensures
        label@ == checked_label_text(n as nat),
{
    proof {
        reveal_strlit(" checked");
    }
    let mut label = decimal_string(n);
    label.append(" checked");
    label
}

/// Backspace takes back a character just typed into the search.
pub proof fn law_backspace_undoes_typing(query: Seq<char>, c: char)
    ensures
        query_after_key(query_after_key(query, GlobalSearchKey::Char(c)), GlobalSearchKey::Backspace) == query,
{
    assert(query.push(c).drop_last() =~= query);
}

/// Picking a filter's row twice leaves the filter as it was.
pub proof fn law_picking_a_row_twice_turns_it_back(item: FilterItem)
    ensures
        filter_change(item.kind, !item.active) != filter_change(item.kind, item.active),
        filter_change(item.kind, !!item.active) == filter_change(item.kind, item.active),
{
}

/// What Escape does in the folder workspace.
#[derive(Debug, Clone, Copy, PartialEq, Eq, Structural)]
pub enum EscapeAction {
    /// Close the rename editor, dropping what was typed.
    CloseRename,
    /// Leave the full-screen view of the video or image.
    LeaveFullscreen,
    /// Clear both search bars: both label their clear button "Esc".
    ClearSearches,
}

/// What Escape does: it closes the rename editor when one is open, else leaves full screen,
/// else clears the searches.
pub fn escape_action(renaming: bool, fullscreen: bool) -> (action: EscapeAction)
    ensures
        renaming ==> action == EscapeAction::CloseRename,
        !renaming && fullscreen ==> action == EscapeAction::LeaveFullscreen,
        !renaming && !fullscreen ==> action == EscapeAction::ClearSearches,
{
    if renaming {
        EscapeAction::CloseRename
    } else if fullscreen {
        EscapeAction::LeaveFullscreen
    } else {
        EscapeAction::ClearSearches
    }
}

} // verus!
