//! Clip markers: which row of the marker list is lit while the video plays, which marker the
//! marker keys act on, where they jump, and the state of the list itself (the row open for
//! editing, the open color picker, what `F2` did last). Markers are in time order and are known
//! here by their start times (ms) and GUIDs.

use vstd::prelude::*;
use vstd::string::*;

use crate::text::{push_char, str_eq};

verus! {

/// `Shift+F1` skips a marker the playhead passed less than this ago (ms), so pressing it again
/// while playing goes on to the one before instead of back to the same one.
pub const PREVIOUS_SLACK_MS: u64 = 750;

/// A second `F2` within this time (ms) after one that added a marker opens that marker's row,
/// so `F2 F2` marks a moment and names it; later, `F2` adds again.
pub const NAME_WINDOW_MS: u64 = 1500;

/// Whether the marker at `i` is the lit row: it has started by `position_ms` and no later one
/// has.
pub open spec fn is_lit(starts: Seq<u64>, position_ms: u64, i: int) -> bool {
    &&& 0 <= i < starts.len()
    &&& starts[i] <= position_ms
    &&& forall|j: int| i < j < starts.len() ==> #[trigger] starts[j] > position_ms
}

/// The lit row: the last marker starting at or before `position_ms`.
pub open spec fn lit(starts: Seq<u64>, position_ms: u64) -> Option<int> {
    if exists|i: int| is_lit(starts, position_ms, i) {
        Some(choose|i: int| is_lit(starts, position_ms, i))
    } else {
        None
    }
}

/// Index of the lit row: the last marker at or before `position_ms`.
pub fn lit_index(starts: &[u64], position_ms: u64) -> (index: Option<usize>)
    ensures
        match index {
            Some(i) => lit(starts@, position_ms) == Some(i as int),
            None => lit(starts@, position_ms) is None
                && forall|j: int| 0 <= j < starts@.len() ==> starts@[j] > position_ms,
        },
{
    let mut i = starts.len();
    while i > 0
        invariant
            i <= starts@.len(),
            forall|j: int| i <= j < starts@.len() ==> starts@[j] > position_ms,
        decreases i,
    {
        if starts[i - 1] <= position_ms {
            proof {
                let k = (i - 1) as int;
                assert(is_lit(starts@, position_ms, k));
                let w = choose|w: int| is_lit(starts@, position_ms, w);
                if w < k {
                    assert(starts@[k] > position_ms);
                } else if w > k {
                    assert(starts@[w] > position_ms);
                }
            }
            return Some(i - 1);
        }
        i = i - 1;
    }
    None
}

/// The distance between two times.
pub open spec fn distance(a: u64, b: u64) -> nat {
    if a >= b { (a - b) as nat } else { (b - a) as nat }
}

/// Whether the marker at `j` starts within `snap_ms` of the playhead.
pub open spec fn within(starts: Seq<u64>, position_ms: u64, snap_ms: u64, j: int) -> bool {
    distance(starts[j], position_ms) <= snap_ms
}

/// Whether the marker at `b` is the nearest of the first `n` within `snap_ms`, the first of
/// equals.
pub open spec fn nearest_among(starts: Seq<u64>, position_ms: u64, snap_ms: u64, b: int, n: int) -> bool {
    &&& 0 <= b < n <= starts.len()
    &&& within(starts, position_ms, snap_ms, b)
    &&& forall|j: int| 0 <= j < n && #[trigger] within(starts, position_ms, snap_ms, j)
        ==> distance(starts[b], position_ms) <= distance(starts[j], position_ms)
    &&& forall|j: int| 0 <= j < b && #[trigger] within(starts, position_ms, snap_ms, j)
        ==> distance(starts[b], position_ms) < distance(starts[j], position_ms)
}

/// The marker nearest the playhead among those within `snap_ms` of it, the first of equals.
pub open spec fn nearest_to(starts: Seq<u64>, position_ms: u64, snap_ms: u64) -> Option<int> {
    if exists|b: int| nearest_among(starts, position_ms, snap_ms, b, starts.len() as int) {
        Some(choose|b: int| nearest_among(starts, position_ms, snap_ms, b, starts.len() as int))
    } else {
        None
    }
}

/// The marker nearest the playhead, if one starts within `snap_ms` of it; of two as near, the
/// first.
pub fn nearest(starts: &[u64], position_ms: u64, snap_ms: u64) -> (index: Option<usize>)
    ensures
        match index {
            Some(i) => nearest_to(starts@, position_ms, snap_ms) == Some(i as int),
            None => nearest_to(starts@, position_ms, snap_ms) is None
                && forall|j: int| 0 <= j < starts@.len() ==> !within(starts@, position_ms, snap_ms, j),
        },
{
    let mut best: Option<(usize, u64)> = None;
    let mut i: usize = 0;
    while i < starts.len()
        invariant
            i <= starts@.len(),
            match best {
                None => forall|j: int| 0 <= j < i ==> !within(starts@, position_ms, snap_ms, j),
                Some((b, d)) => nearest_among(starts@, position_ms, snap_ms, b as int, i as int)
                    && d == distance(starts@[b as int], position_ms),
            },
        decreases starts@.len() - i,
    {
        let start = starts[i];
        let d = if start >= position_ms { start - position_ms } else { position_ms - start };
        if d <= snap_ms {
            match best {
                None => best = Some((i, d)),
                Some((_, bd)) => if d < bd {
                    best = Some((i, d));
                },
            }
        }
        i = i + 1;
    }
    match best {
        None => {
            proof {
                assert(!exists|b: int| nearest_among(starts@, position_ms, snap_ms, b, starts@.len() as int));
            }
            None
        },
        Some((b, _)) => {
            proof {
                let w = choose|w: int| nearest_among(starts@, position_ms, snap_ms, w, starts@.len() as int);
                assert(within(starts@, position_ms, snap_ms, w));
                assert(within(starts@, position_ms, snap_ms, b as int));
                if w < b {
                    assert(distance(starts@[b as int], position_ms) < distance(starts@[w], position_ms));
                } else if w > b {
                    assert(distance(starts@[w], position_ms) < distance(starts@[b as int], position_ms));
                }
            }
            Some(b)
        },
    }
}

/// Whether a start counts for the jump: after the playhead going forward, or far enough
/// before it going back.
pub open spec fn jump_candidate(start: u64, position_ms: u64, forward: bool) -> bool {
    if forward { start > position_ms } else { start + PREVIOUS_SLACK_MS <= position_ms }
}

/// Whether `a` is at least as good a jump as `b`: earlier going forward, later going back.
pub open spec fn no_further(a: u64, b: u64, forward: bool) -> bool {
    if forward { a <= b } else { b <= a }
}

/// Whether the marker at `i` is where the jump goes: a candidate no further than any other.
pub open spec fn best_jump(starts: Seq<u64>, position_ms: u64, forward: bool, i: int) -> bool {
    &&& 0 <= i < starts.len()
    &&& jump_candidate(starts[i], position_ms, forward)
    &&& forall|j: int| 0 <= j < starts.len() && #[trigger] jump_candidate(starts[j], position_ms, forward)
        ==> no_further(starts[i], starts[j], forward)
}

/// Where `Shift+F3` (forward) or `Shift+F1` (back) jumps: the earliest start after the
/// playhead, or the latest start at least [`PREVIOUS_SLACK_MS`] before it.
pub open spec fn jump_target(starts: Seq<u64>, position_ms: u64, forward: bool) -> Option<u64> {
    if exists|i: int| best_jump(starts, position_ms, forward, i) {
        Some(starts[choose|i: int| best_jump(starts, position_ms, forward, i)])
    } else {
        None
    }
}

/// `Shift+F1` / `Shift+F3`: the time of the previous / next marker to jump to, exactly onto it.
pub fn jump_to(starts: &[u64], position_ms: u64, forward: bool) -> (target: Option<u64>)
    ensures
        target == jump_target(starts@, position_ms, forward),
        target is None <==> forall|j: int| 0 <= j < starts@.len() ==> !jump_candidate(starts@[j], position_ms, forward),
{
    let mut best: Option<usize> = None;
    let mut i: usize = 0;
    while i < starts.len()
        invariant
            i <= starts@.len(),
            match best {
                None => forall|j: int| 0 <= j < i ==> !jump_candidate(starts@[j], position_ms, forward),
                Some(k) => {
                    &&& k < i
                    &&& jump_candidate(starts@[k as int], position_ms, forward)
                    &&& forall|j: int| 0 <= j < i && jump_candidate(starts@[j], position_ms, forward)
                        ==> no_further(starts@[k as int], starts@[j], forward)
                },
            },
        decreases starts@.len() - i,
    {
        let start = starts[i];
        let candidate = if forward {
            start > position_ms
        } else {
            position_ms >= PREVIOUS_SLACK_MS && start <= position_ms - PREVIOUS_SLACK_MS
        };
        if candidate {
            match best {
                None => best = Some(i),
                Some(k) => if (forward && start < starts[k]) || (!forward && start > starts[k]) {
                    best = Some(i);
                },
            }
        }
        i = i + 1;
    }
    match best {
        None => {
            proof {
                assert(!exists|i: int| best_jump(starts@, position_ms, forward, i));
            }
            None
        },
        Some(k) => {
            proof {
                assert(best_jump(starts@, position_ms, forward, k as int));
                let w = choose|w: int| best_jump(starts@, position_ms, forward, w);
                assert(no_further(starts@[w], starts@[k as int], forward));
                assert(no_further(starts@[k as int], starts@[w], forward));
            }
            Some(starts[k])
        },
    }
}

/// A marker's name is one line: line breaks typed or pasted into it become spaces.
pub open spec fn one_line(text: Seq<char>) -> Seq<char> {
    text.map_values(|c: char| if c == '\r' || c == '\n' { ' ' } else { c })
}

/// The name typed into a marker's row, on one line.
pub fn name_from_input(text: &str) -> (name: String)
    ensures
        name@ == one_line(text@),
{
    let n = text.unicode_len();
    let mut name = String::new();
    let mut i: usize = 0;
    while i < n
        invariant
            n == text@.len(),
            i <= n,
            name@ == one_line(text@.take(i as int)),
        decreases n - i,
    {
        let c = text.get_char(i);
        if c == '\r' || c == '\n' {
            push_char(&mut name, ' ');
        } else {
            push_char(&mut name, c);
        }
        proof {
            assert(one_line(text@.take(i + 1)) =~= one_line(text@.take(i as int)).push(
                if c == '\r' || c == '\n' { ' ' } else { c },
            ));
        }
        i = i + 1;
    }
    proof {
        assert(text@.take(n as int) =~= text@);
    }
    name
}

/// A marker's time in its row: its start, and for a ranged marker (one with a length) its
/// start and end joined by an en dash (`0:41`, `0:41–0:47`); the times come formatted by the
/// marker library.
pub open spec fn time_label_text(duration_ms: u64, start: Seq<char>, end: Seq<char>) -> Seq<char> {
    if duration_ms == 0 {
        start
    } else {
        start + "–"@ + end
    }
}

/// The time shown in the row of a marker `duration_ms` long, given its formatted start and
/// end.
pub fn time_label(duration_ms: u64, start: &str, end: &str) -> (label: String)
    ensures
        label@ == time_label_text(duration_ms, start@, end@),
{
    let mut label = start.to_owned();
    if duration_ms == 0 {
        label
    } else {
        proof {
            reveal_strlit("–");
        }
        label.append("–");
        label.append(end);
        label
    }
}

/// The marker list's own state, as a model.
pub struct MarkersView {
    pub editing: Option<Seq<char>>,
    pub color_picker: Option<Seq<char>>,
    pub last_added: Option<(Seq<char>, u64)>,
    pub followed: Option<usize>,
}

/// State of the marker list that is not the markers themselves: the row open for editing, the
/// open color picker, what `F2` added last and when, and the row followed during playback.
/// The text of the open row's comment editor is the app's.
#[derive(Debug, Default)]
pub struct MarkersState {
    /// The GUID of the row open for editing; at most one is open.
    edit: Option<String>,
    /// The marker whose color picker is shown.
    color_picker: Option<String>,
    /// The marker `F2` added last, and when (ms on the app's monotonic clock).
    last_added: Option<(String, u64)>,
    /// Row the list scrolled to last when following playback.
    followed: Option<usize>,
}

/// What `F2` (or the list's add button) does.
#[derive(Debug, Clone, PartialEq, Eq)]
pub enum AddKey {
    /// The file cannot hold markers: show the list, which says so (a key press never does
    /// nothing).
    ShowMarkerList,
    /// A row was open: it is closed, and a marker is under the playhead already.
    Closed,
    /// Add a marker at the playhead; `remember`: a second `F2` soon after opens its row.
    Add { remember: bool },
    /// Open the row of this marker, to name it.
    OpenRow(String),
    /// The marker under the playhead is read-only: show the list and say so.
    ReadOnly,
}

/// What `F2` does, with the marker's GUID as characters.
pub enum AddKeyView {
    ShowMarkerList,
    Closed,
    Add { remember: bool },
    OpenRow(Seq<char>),
    ReadOnly,
}

/// What `Shift+F2` does.
#[derive(Debug, Clone, PartialEq, Eq)]
pub enum DeleteKey {
    /// A row is open: nothing.
    Nothing,
    /// Delete this marker, and say "Marker deleted".
    Delete(String),
    /// Say "No marker here".
    NoMarkerHere,
}

/// Said after `Shift+F2` deleted a marker.
pub const MARKER_DELETED: &'static str = "Marker deleted";

/// Said after `Shift+F2` found no marker to delete.
pub const NO_MARKER_HERE: &'static str = "No marker here";

/// Said when `F2` lands on a read-only marker.
pub const READ_ONLY_MARKER: &'static str = "That marker is read-only";

/// The marker `F2` added less than [`NAME_WINDOW_MS`] before `now_ms`.
pub open spec fn recently_added(v: MarkersView, now_ms: u64) -> Option<Seq<char>> {
    match v.last_added {
        Some((g, at)) => if now_ms >= at && now_ms - at < NAME_WINDOW_MS { Some(g) } else { None },
        None => None,
    }
}

/// The list after the row of `guid` is opened.
pub open spec fn opened(v: MarkersView, guid: Seq<char>) -> MarkersView {
    MarkersView { editing: Some(guid), color_picker: None, last_added: None, ..v }
}

/// The optional GUID of the marker under the playhead, as characters.
pub open spec fn near_view(near: Option<Option<String>>) -> Option<Option<Seq<char>>> {
    match near {
        Some(g) => Some(opt_view(g)),
        None => None,
    }
}

/// What `F2` does and the list after it: `can_hold` when the file can hold markers, `near` the
/// marker under the playhead (its GUID, `None` when it is read-only), `guids` the GUIDs of the
/// file's markers.
pub open spec fn add_key_outcome(
    v: MarkersView,
    can_hold: bool,
    near: Option<Option<Seq<char>>>,
    now_ms: u64,
    guids: Seq<Seq<char>>,
) -> (MarkersView, AddKeyView) {
    if !can_hold {
        (v, AddKeyView::ShowMarkerList)
    } else if v.editing is Some {
        (
            MarkersView { editing: None, ..v },
            if near is Some { AddKeyView::Closed } else { AddKeyView::Add { remember: false } },
        )
    } else {
        let taken = MarkersView { last_added: None, ..v };
        if recently_added(v, now_ms) matches Some(g) && guids.contains(g) {
            (opened(taken, recently_added(v, now_ms).unwrap()), AddKeyView::OpenRow(recently_added(v, now_ms).unwrap()))
        } else {
            match near {
                Some(Some(g)) => (opened(taken, g), AddKeyView::OpenRow(g)),
                Some(None) => (taken, AddKeyView::ReadOnly),
                None => (taken, AddKeyView::Add { remember: true }),
            }
        }
    }
}

/// The view of an `F2` outcome.
pub open spec fn add_key_view(a: AddKey) -> AddKeyView {
    match a {
        AddKey::ShowMarkerList => AddKeyView::ShowMarkerList,
        AddKey::Closed => AddKeyView::Closed,
        AddKey::Add { remember } => AddKeyView::Add { remember },
        AddKey::OpenRow(g) => AddKeyView::OpenRow(g@),
        AddKey::ReadOnly => AddKeyView::ReadOnly,
    }
}

/// Whether `guid` is one of `guids`, computed.
fn contains_guid(guids: &[String], guid: &str) -> (found: bool)
    ensures
        found == guids@.map_values(|g: String| g@).contains(guid@),
{
    let ghost views = guids@.map_values(|g: String| g@);
    let mut i: usize = 0;
    while i < guids.len()
        invariant
            i <= guids@.len(),
            views == guids@.map_values(|g: String| g@),
            forall|j: int| 0 <= j < i ==> views[j] != guid@,
        decreases guids@.len() - i,
    {
        if str_eq(guids[i].as_str(), guid) {
            proof {
                assert(views[i as int] == guid@);
            }
            return true;
        }
        i = i + 1;
    }
    false
}

/// What the first line of a marker's row shows.
#[derive(Debug, Clone, Copy, PartialEq, Eq, Structural)]
pub enum RowHeader {
    /// The color choices, and a button that keeps the color.
    ColorPicker,
    /// Dot, time and the row's buttons: a ranged marker's button makes it a point marker
    /// (`ranged`), a point marker's ends it at the playhead; the open row's edit button is
    /// "Done" (`open`), the others' open them.
    Editable { ranged: bool, open: bool },
    /// A marker without a GUID cannot be changed: dot, time and "read-only".
    ReadOnly,
}

/// What the first line of the row of a marker (GUID `guid`, `None` for a read-only marker,
/// length `duration_ms`) shows.
pub open spec fn row_header_of(v: MarkersView, guid: Option<Seq<char>>, duration_ms: u64) -> RowHeader {
    match guid {
        None => RowHeader::ReadOnly,
        Some(g) => if v.color_picker == Some(g) {
            RowHeader::ColorPicker
        } else {
            RowHeader::Editable { ranged: duration_ms > 0, open: v.editing == Some(g) }
        },
    }
}

/// What the marker list says instead of rows: that the file cannot hold markers, or that it
/// has none yet.
pub open spec fn list_note_of(can_hold: bool, count: nat) -> Option<Seq<char>> {
    if !can_hold {
        Some("This file cannot hold markers"@)
    } else if count == 0 {
        Some("No markers yet — press F2 to add one"@)
    } else {
        None
    }
}

/// The note the marker list shows instead of rows, if any.
pub fn list_note(can_hold: bool, count: usize) -> (note: Option<&'static str>)
    ensures
        match note {
            Some(n) => list_note_of(can_hold, count as nat) == Some(n@),
            None => list_note_of(can_hold, count as nat) is None,
        },
{
    proof {
        reveal_strlit("This file cannot hold markers");
        reveal_strlit("No markers yet — press F2 to add one");
    }
    if !can_hold {
        Some("This file cannot hold markers")
    } else if count == 0 {
        Some("No markers yet — press F2 to add one")
    } else {
        None
    }
}

/// A marker's name in a closed row: a dash when it has none.
pub fn shown_name(name: &str) -> (shown: &str)
    ensures
        shown@ == (if name@.len() == 0 { "—"@ } else { name@ }),
{
    proof {
        reveal_strlit("—");
    }
    if name.unicode_len() == 0 { "—" } else { name }
}

/// The view of an optional string.
pub open spec fn opt_view(s: Option<String>) -> Option<Seq<char>> {
    match s {
        Some(s) => Some(s@),
        None => None,
    }
}

impl View for MarkersState {
    type V = MarkersView;

    closed spec fn view(&self) -> MarkersView {
        MarkersView {
            editing: opt_view(self.edit),
            color_picker: opt_view(self.color_picker),
            last_added: match self.last_added {
                Some((g, at)) => Some((g@, at)),
                None => None,
            },
            followed: self.followed,
        }
    }
}

impl MarkersState {
    /// Nothing open, nothing added, no row followed.
    pub fn new() -> (state: Self)
        ensures
            state@ == (MarkersView { editing: None, color_picker: None, last_added: None, followed: None }),
    {
        MarkersState { edit: None, color_picker: None, last_added: None, followed: None }
    }

    /// The GUID of the row open for editing.
    pub fn editing(&self) -> (guid: Option<&str>)
        ensures
            match guid {
                Some(g) => self@.editing == Some(g@),
                None => self@.editing is None,
            },
    {
        match &self.edit {
            Some(g) => Some(g.as_str()),
            None => None,
        }
    }

    pub fn is_editing(&self) -> (editing: bool)
        ensures
            editing == self@.editing is Some,
    {
        self.edit.is_some()
    }

    /// Open the row of `guid`; the color picker closes and `F2` adds again.
    pub fn open(&mut self, guid: String)
        ensures
            final(self)@ == (MarkersView { editing: Some(guid@), color_picker: None, last_added: None, ..old(self)@ }),
    {
        self.edit = Some(guid);
        self.color_picker = None;
        self.last_added = None;
    }

    pub fn close(&mut self)
        ensures
            final(self)@ == (MarkersView { editing: None, ..old(self)@ }),
    {
        self.edit = None;
    }

    /// The marker whose color picker is shown.
    pub fn color_picker(&self) -> (guid: Option<&str>)
        ensures
            match guid {
                Some(g) => self@.color_picker == Some(g@),
                None => self@.color_picker is None,
            },
    {
        match &self.color_picker {
            Some(g) => Some(g.as_str()),
            None => None,
        }
    }

    /// Show the color picker of `guid`, or hide it when it is the one shown.
    pub fn toggle_color_picker(&mut self, guid: String)
        ensures
            final(self)@ == (MarkersView {
                color_picker: if old(self)@.color_picker == Some(guid@) { None } else { Some(guid@) },
                ..old(self)@
            }),
    {
        let shown = match &self.color_picker {
            Some(g) => str_eq(g.as_str(), guid.as_str()),
            None => false,
        };
        self.color_picker = if shown { None } else { Some(guid) };
    }

    pub fn close_color_picker(&mut self)
        ensures
            final(self)@ == (MarkersView { color_picker: None, ..old(self)@ }),
    {
        self.color_picker = None;
    }

    /// `F2` added the marker `guid` at `now_ms`.
    pub fn added(&mut self, guid: String, now_ms: u64)
        ensures
            final(self)@ == (MarkersView { last_added: Some((guid@, now_ms)), ..old(self)@ }),
    {
        self.last_added = Some((guid, now_ms));
    }

    /// The marker `F2` added less than [`NAME_WINDOW_MS`] before `now_ms`, if nothing else
    /// happened since; it is forgotten either way.
    pub fn take_recently_added(&mut self, now_ms: u64) -> (guid: Option<String>)
        ensures
            final(self)@ == (MarkersView { last_added: None, ..old(self)@ }),
            match old(self)@.last_added {
                Some((g, at)) => if now_ms >= at && now_ms - at < NAME_WINDOW_MS {
                    guid matches Some(r) && r@ == g
                } else {
                    guid is None
                },
                None => guid is None,
            },
    {
        match self.last_added.take() {
            Some((guid, at)) => if now_ms >= at && now_ms - at < NAME_WINDOW_MS {
                Some(guid)
            } else {
                None
            },
            None => None,
        }
    }

    /// Something other than `F2` happened: a second `F2` adds again.
    pub fn forget_added(&mut self)
        ensures
            final(self)@ == (MarkersView { last_added: None, ..old(self)@ }),
    {
        self.last_added = None;
    }

    /// Record the row the list follows; returns whether it changed.
    pub fn follow(&mut self, row: Option<usize>) -> (changed: bool)
        ensures
            final(self)@ == (MarkersView { followed: row, ..old(self)@ }),
            changed == (old(self)@.followed != row),
    {
        let changed = self.followed != row;
        self.followed = row;
        changed
    }

    /// `F2` or the add button at `now_ms`: what to do, given whether the file can hold
    /// markers (`can_hold`), the marker under the playhead (`near`: its GUID, `None` when it is
    /// read-only) and the GUIDs of the file's markers. An open row is closed; the marker `F2`
    /// added just before has its row opened; after an `Add` with `remember`, the app reports
    /// the new marker through [`Self::added`].
    pub fn add_key(&mut self, can_hold: bool, near: Option<Option<String>>, now_ms: u64, guids: &[String]) -> (action: AddKey)
        ensures
            (final(self)@, add_key_view(action)) == add_key_outcome(
                old(self)@,
                can_hold,
                near_view(near),
                now_ms,
                guids@.map_values(|g: String| g@),
            ),
    {
        if !can_hold {
            return AddKey::ShowMarkerList;
        }
        if self.is_editing() {
            self.close();
            return match near {
                Some(_) => AddKey::Closed,
                None => AddKey::Add { remember: false },
            };
        }
        if let Some(guid) = self.take_recently_added(now_ms) {
            if contains_guid(guids, guid.as_str()) {
                self.open(guid.clone());
                return AddKey::OpenRow(guid);
            }
        }
        match near {
            Some(Some(guid)) => {
                self.open(guid.clone());
                AddKey::OpenRow(guid)
            },
            Some(None) => AddKey::ReadOnly,
            None => AddKey::Add { remember: true },
        }
    }

    /// `Shift+F2`: what to do with the marker under the playhead (`near`: its GUID, `None` when
    /// it is read-only). Nothing while a row is open.
    pub fn delete_key(&self, near: Option<Option<String>>) -> (action: DeleteKey)
        ensures
            self@.editing is Some ==> action == DeleteKey::Nothing,
            self@.editing is None ==> match near {
                Some(Some(g)) => action matches DeleteKey::Delete(d) && d@ == g@,
                _ => action == DeleteKey::NoMarkerHere,
            },
    {
        if self.is_editing() {
            return DeleteKey::Nothing;
        }
        match near {
            Some(Some(guid)) => DeleteKey::Delete(guid),
            _ => DeleteKey::NoMarkerHere,
        }
    }

    /// The marker `guid` is deleted: its row closes if it is the open one.
    pub fn marker_deleted(&mut self, guid: &str)
        ensures
            final(self)@ == (if old(self)@.editing == Some(guid@) {
                MarkersView { editing: None, ..old(self)@ }
            } else {
                old(self)@
            }),
    {
        let open = match &self.edit {
            Some(g) => str_eq(g.as_str(), guid),
            None => false,
        };
        if open {
            self.close();
        }
    }

    /// Keep the lit row in view while the marker list is shown (`list_shown`), except while a
    /// row is open. `lit`: the lit row (see [`lit_index`]), or `None` when the markers or the
    /// playhead are not known. Returns the row to scroll to: only when the lit row changed, or
    /// always with `force`.
    pub fn follow_list(&mut self, list_shown: bool, lit: Option<Option<usize>>, force: bool) -> (scroll_to: Option<usize>)
        ensures
            !list_shown ==> final(self)@ == (MarkersView { followed: None, ..old(self)@ }) && scroll_to is None,
            list_shown && (old(self)@.editing is Some || lit is None) ==> final(self)@ == old(self)@ && scroll_to is None,
            list_shown && old(self)@.editing is None && lit is Some ==> {
                let l = lit.unwrap();
                &&& final(self)@ == (MarkersView { followed: l, ..old(self)@ })
                &&& scroll_to == (if old(self)@.followed != l || force {
                    Some(match l { Some(r) => r, None => 0 })
                } else {
                    None::<usize>
                })
            },
    {
        if !list_shown {
            self.follow(None);
            return None;
        }
        if self.is_editing() {
            return None;
        }
        let lit = match lit {
            Some(l) => l,
            None => return None,
        };
        let changed = self.follow(lit);
        if !changed && !force {
            return None;
        }
        Some(match lit {
            Some(r) => r,
            None => 0,
        })
    }

    /// What the first line of a marker's row shows: `guid` is the marker's GUID (`None` for
    /// a read-only marker), `duration_ms` its length.
    pub fn row_header(&self, guid: Option<&str>, duration_ms: u64) -> (header: RowHeader)
        ensures
            header == row_header_of(self@, match guid { Some(g) => Some(g@), None => None }, duration_ms),
    {
        let guid = match guid {
            Some(g) => g,
            None => return RowHeader::ReadOnly,
        };
        let picking = match &self.color_picker {
            Some(p) => str_eq(p.as_str(), guid),
            None => false,
        };
        if picking {
            return RowHeader::ColorPicker;
        }
        let open = match &self.edit {
            Some(e) => str_eq(e.as_str(), guid),
            None => false,
        };
        RowHeader::Editable { ranged: duration_ms > 0, open }
    }

    /// Start over for another file.
    pub fn reset(&mut self)
        ensures
            final(self)@ == (MarkersView { editing: None, color_picker: None, last_added: None, followed: None }),
    {
        self.edit = None;
        self.color_picker = None;
        self.last_added = None;
        self.followed = None;
    }
}

/// The lit row is the marker the playhead is in: no later marker has started, and it has.
pub proof fn law_lit_row_has_started(starts: Seq<u64>, position_ms: u64)
    requires
        lit(starts, position_ms) is Some,
    ensures
        starts[lit(starts, position_ms).unwrap()] <= position_ms,
        forall|j: int| lit(starts, position_ms).unwrap() < j < starts.len() ==> starts[j] > position_ms,
{
}

/// A jump forward lands after the playhead, a jump back at least [`PREVIOUS_SLACK_MS`]
/// before it, and no marker lies between the playhead and where a jump lands.
pub proof fn law_jumps_land_on_the_nearest_marker(starts: Seq<u64>, position_ms: u64, j: int)
    requires
        0 <= j < starts.len(),
    ensures
        jump_target(starts, position_ms, true) matches Some(t) ==> t > position_ms
            && (starts[j] > position_ms ==> t <= starts[j]),
        jump_target(starts, position_ms, false) matches Some(t) ==> t + PREVIOUS_SLACK_MS <= position_ms
            && (starts[j] + PREVIOUS_SLACK_MS <= position_ms ==> starts[j] <= t),
{
    if jump_target(starts, position_ms, true) is Some {
        let w = choose|i: int| best_jump(starts, position_ms, true, i);
        assert(jump_candidate(starts[j], position_ms, true) ==> no_further(starts[w], starts[j], true));
    }
    if jump_target(starts, position_ms, false) is Some {
        let w = choose|i: int| best_jump(starts, position_ms, false, i);
        assert(jump_candidate(starts[j], position_ms, false) ==> no_further(starts[w], starts[j], false));
    }
}

/// `F2 F2` marks a moment and names it: after `F2` added the marker `guid` at `added_ms`, a
/// second `F2` less than [`NAME_WINDOW_MS`] later opens that marker's row, while it is still
/// there and no row was open.
pub proof fn law_f2_twice_names_the_marker(
    v: MarkersView,
    guid: Seq<char>,
    added_ms: u64,
    now_ms: u64,
    near: Option<Option<Seq<char>>>,
    guids: Seq<Seq<char>>,
)
    requires
        v.editing is None,
        added_ms <= now_ms,
        now_ms - added_ms < NAME_WINDOW_MS,
        guids.contains(guid),
    ensures
        add_key_outcome((MarkersView { last_added: Some((guid, added_ms)), ..v }), true, near, now_ms, guids)
            == (opened(v, guid), AddKeyView::OpenRow(guid)),
{
}

/// Later, or when something else happened in between, `F2` adds again.
pub proof fn law_f2_later_adds_again(v: MarkersView, now_ms: u64, guids: Seq<Seq<char>>)
    requires
        v.editing is None,
        recently_added(v, now_ms) is None,
    ensures
        add_key_outcome(v, true, None, now_ms, guids).1 == (AddKeyView::Add { remember: true }),
{
}

} // verus!
