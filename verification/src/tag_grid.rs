//! Moving the selection through the tag grid with the arrow keys, and the other choices the tag
//! panel makes about which tag is selected. Tags are known by their ids; the grid shows the tags
//! that pass the search filter, left to right and top to bottom, `cols` to a row.

use vstd::prelude::*;

use crate::text::{trim_end, trimmed_end};

verus! {

/// The first position of `id` in `ids`.
pub open spec fn position_in(ids: Seq<u64>, id: u64) -> Option<int> {
    if exists|i: int| 0 <= i < ids.len() && ids[i] == id {
        Some(choose|i: int| 0 <= i < ids.len() && ids[i] == id && forall|j: int| 0 <= j < i ==> ids[j] != id)
    } else {
        None
    }
}

/// Where the selection is in `ids`: the position of the selected tag, if it is shown.
pub open spec fn cursor(ids: Seq<u64>, selected: Option<u64>) -> Option<int> {
    match selected {
        Some(id) => position_in(ids, id),
        None => None,
    }
}

/// Left: one back, from the first (or from nowhere) to the last.
pub open spec fn left_index(count: int, cur: Option<int>) -> int {
    match cur {
        None => count - 1,
        Some(i) => if i == 0 { count - 1 } else { i - 1 },
    }
}

/// Right: one on, from the last to the first, from nowhere to the first.
pub open spec fn right_index(count: int, cur: Option<int>) -> int {
    match cur {
        None => 0,
        Some(i) => if i >= count - 1 { 0 } else { i + 1 },
    }
}

/// Up: one row up; from the top row to the lowest tag of the same column; from nowhere to the
/// last tag.
pub open spec fn up_index(count: int, cols: int, cur: Option<int>) -> int {
    match cur {
        None => count - 1,
        Some(i) => if i < cols {
            let below = ((count - 1) / cols) * cols + i % cols;
            if below >= count { below - cols } else { below }
        } else {
            i - cols
        },
    }
}

/// Down: one row down; from the lowest tag of a column to the top of that column; from nowhere
/// to the first tag.
pub open spec fn down_index(count: int, cols: int, cur: Option<int>) -> int {
    match cur {
        None => 0,
        Some(i) => if i + cols >= count { i % cols } else { i + cols },
    }
}

/// The tag at position `index` of `ids`, or no selection when there is no tag.
pub open spec fn tag_at(ids: Seq<u64>, index: int) -> Option<u64> {
    if ids.len() == 0 { None } else { Some(ids[index]) }
}

/// The position of `selected` in `ids`, computed.
fn find(ids: &[u64], selected: Option<u64>) -> (cur: Option<usize>)
    ensures
        match cur {
            Some(i) => cursor(ids@, selected) == Some(i as int) && i < ids@.len() && selected == Some(ids@[i as int]),
            None => cursor(ids@, selected) is None,
        },
{
    let id = match selected {
        Some(id) => id,
        None => return None,
    };
    let mut i: usize = 0;
    while i < ids.len()
        invariant
            selected == Some(id),
            i <= ids@.len(),
            forall|j: int| 0 <= j < i ==> ids@[j] != id,
        decreases ids@.len() - i,
    {
        if ids[i] == id {
            proof {
                assert(0 <= i < ids@.len() && ids@[i as int] == id);
                let w = choose|w: int| 0 <= w < ids@.len() && ids@[w] == id && forall|j: int| 0 <= j < w ==> ids@[j] != id;
                if w < i {
                    assert(ids@[w] != id);
                } else if w > i {
                    assert(ids@[i as int] != id);
                }
            }
            return Some(i);
        }
        i = i + 1;
    }
    None
}

/// The facts of division by the row length that the grid moves need.
proof fn lemma_rows(count: int, cols: int, i: int)
    requires
        cols >= 1,
        0 <= i < count,
    ensures
        0 <= (count - 1) / cols,
        ((count - 1) / cols) * cols <= count - 1,
        ((count - 1) / cols) * cols + cols > count - 1,
        0 <= i % cols < cols,
        i < cols ==> i % cols == i,
{
    assert(((count - 1) / cols) * cols + (count - 1) % cols == count - 1) by (nonlinear_arith)
        requires cols >= 1;
    assert(0 <= (count - 1) % cols < cols) by (nonlinear_arith)
        requires cols >= 1, count - 1 >= 0;
    assert(0 <= (count - 1) / cols) by (nonlinear_arith)
        requires cols >= 1, count - 1 >= 0;
    assert(0 <= i % cols < cols) by (nonlinear_arith)
        requires cols >= 1, i >= 0;
    if i < cols {
        vstd::arithmetic::div_mod::lemma_small_mod(i as nat, cols as nat);
    }
}

/// `Left`: the tag before the selected one, wrapping from the first to the last; no selection
/// when nothing is shown.
pub fn select_left(ids: &[u64], selected: Option<u64>) -> (next: Option<u64>)
    ensures
        next == tag_at(ids@, left_index(ids@.len() as int, cursor(ids@, selected))),
{
    if ids.len() == 0 {
        return None;
    }
    let new_i = match find(ids, selected) {
        None => ids.len() - 1,
        Some(i) => if i == 0 { ids.len() - 1 } else { i - 1 },
    };
    Some(ids[new_i])
}

/// `Right`: the tag after the selected one, wrapping from the last to the first.
pub fn select_right(ids: &[u64], selected: Option<u64>) -> (next: Option<u64>)
    ensures
        next == tag_at(ids@, right_index(ids@.len() as int, cursor(ids@, selected))),
{
    if ids.len() == 0 {
        return None;
    }
    let last = ids.len() - 1;
    let new_i = match find(ids, selected) {
        None => 0,
        Some(i) => if i >= last { 0 } else { i + 1 },
    };
    Some(ids[new_i])
}

/// The position one row up from `i`, as [`up_index`] says.
fn up_position(count: usize, cols: usize, i: usize) -> (up: usize)
    requires
        cols >= 1,
        i < count,
    ensures
        up == up_index(count as int, cols as int, Some(i as int)),
{
    if i >= cols {
        return i - cols;
    }
    proof {
        lemma_rows(count as int, cols as int, i as int);
        lemma_up_in_grid(count as int, cols as int, i as int);
    }
    let last_row = (count - 1) / cols;
    let ghost r = (count as int - 1) / cols as int;
    assert(last_row == r);
    assert(last_row * cols <= count - 1);
    let base = last_row * cols;
    // The tag below in the last row is past the end: take the one a row above it.
    if i >= count - base {
        assert(base >= cols) by (nonlinear_arith)
            requires base == r * cols, r * cols + i >= count, i < count, r >= 0, cols >= 1;
        base - cols + i
    } else {
        base + i
    }
}

/// `Up`: the tag one row up, `cols` tags to a row (at least one); from the top row, the lowest
/// tag of the same column.
pub fn select_up(ids: &[u64], selected: Option<u64>, cols: usize) -> (next: Option<u64>)
    ensures
        next == tag_at(
            ids@,
            up_index(ids@.len() as int, if cols == 0 { 1 } else { cols as int }, cursor(ids@, selected)),
        ),
{
    if ids.len() == 0 {
        return None;
    }
    let cols = if cols == 0 { 1 } else { cols };
    let count = ids.len();
    let new_i = match find(ids, selected) {
        None => count - 1,
        Some(i) => {
            proof {
                law_moves_stay_in_the_grid(count as int, cols as int, Some(i as int));
            }
            up_position(count, cols, i)
        },
    };
    Some(ids[new_i])
}

/// `Down`: the tag one row down; from the lowest tag of a column, the top of that column.
pub fn select_down(ids: &[u64], selected: Option<u64>, cols: usize) -> (next: Option<u64>)
    ensures
        next == tag_at(
            ids@,
            down_index(ids@.len() as int, if cols == 0 { 1 } else { cols as int }, cursor(ids@, selected)),
        ),
{
    if ids.len() == 0 {
        return None;
    }
    let cols = if cols == 0 { 1 } else { cols };
    let count = ids.len();
    let new_i = match find(ids, selected) {
        None => 0,
        Some(i) => {
            proof {
                lemma_rows(count as int, cols as int, i as int);
            }
            if cols >= count - i {
                i % cols
            } else {
                i + cols
            }
        },
    };
    Some(ids[new_i])
}

/// The selection kept only while its tag is shown.
pub fn visible_selection(ids: &[u64], selected: Option<u64>) -> (kept: Option<u64>)
    ensures
        kept == (if cursor(ids@, selected) is Some { selected } else { None::<u64> }),
{
    match find(ids, selected) {
        Some(_) => selected,
        None => None,
    }
}

/// `Shift+Space`: the tag to tag or untag, and whether the selection moves to it. The selected
/// tag when it is shown; otherwise the first shown tag, which becomes the selection.
pub fn tag_to_toggle(ids: &[u64], selected: Option<u64>) -> (choice: Option<(u64, bool)>)
    ensures
        choice == (if cursor(ids@, selected) is Some {
            Some((selected.unwrap(), false))
        } else if ids@.len() > 0 {
            Some((ids@[0], true))
        } else {
            None::<(u64, bool)>
        }),
{
    match find(ids, selected) {
        Some(i) => Some((ids[i], false)),
        None => if ids.len() > 0 {
            Some((ids[0], true))
        } else {
            None
        },
    }
}

/// The tag filter when Space toggles a tag: a search bar that had the focus may have taken
/// the space, so a filter ending in a space loses the white space at its end; `None` when it
/// stays as it is.
pub open spec fn filter_before_toggle_of(filter: Seq<char>) -> Option<Seq<char>> {
    if filter.len() > 0 && filter.last() == ' ' {
        Some(trimmed_end(filter))
    } else {
        None
    }
}

/// The tag filter to set before Space toggles a tag, if it changes. The tag toggled is then
/// [`tag_to_toggle`] among the tags that the filter shows.
pub fn filter_before_toggle(filter: &str) -> (new_filter: Option<String>)
    ensures
        match new_filter {
            Some(f) => filter_before_toggle_of(filter@) == Some(f@),
            None => filter_before_toggle_of(filter@) is None,
        },
{
    let n = filter.unicode_len();
    if n > 0 && filter.get_char(n - 1) == ' ' {
        Some(trim_end(filter))
    } else {
        None
    }
}

/// After a tag at position `deleted` was deleted: the tag to select among those shown now, its
/// left neighbour (the first tag when the first was deleted).
pub fn neighbour_after_delete(ids: &[u64], deleted: usize) -> (next: Option<u64>)
    ensures
        next == (if deleted == 0 {
            if ids@.len() > 0 { Some(ids@[0]) } else { None::<u64> }
        } else if deleted - 1 < ids@.len() {
            Some(ids@[deleted - 1])
        } else {
            None::<u64>
        }),
{
    let new_i = if deleted == 0 { 0 } else { deleted - 1 };
    if new_i < ids.len() {
        Some(ids[new_i])
    } else {
        None
    }
}

/// The number of checked tags among the first `index` shown: where a chip dropped at shown
/// position `index` lands in the file name's order.
pub open spec fn checked_before(checked: Seq<bool>, index: int) -> nat
    decreases index,
{
    if index <= 0 || checked.len() == 0 {
        0
    } else if index > checked.len() {
        checked_before(checked, checked.len() as int)
    } else {
        checked_before(checked, index - 1) + (if checked[index - 1] { 1nat } else { 0nat })
    }
}

/// Map a drop position among the shown tags to a position in the file name, counting the
/// checked tags shown before it.
pub fn checked_index(checked: &[bool], index: usize) -> (at: usize)
    ensures
        at == checked_before(checked@, index as int),
{
    let end = if index < checked.len() { index } else { checked.len() };
    let mut n: usize = 0;
    let mut i: usize = 0;
    while i < end
        invariant
            end <= checked@.len(),
            i <= end,
            n == checked_before(checked@, i as int),
            n <= i,
        decreases end - i,
    {
        if checked[i] {
            n = n + 1;
        }
        i = i + 1;
    }
    n
}

/// From a shown tag, `Right` then `Left` comes back to it.
pub proof fn law_left_undoes_right(count: int, i: int)
    requires
        0 <= i < count,
    ensures
        left_index(count, Some(right_index(count, Some(i)))) == i,
{
}

/// From a shown tag, `Left` then `Right` comes back to it.
pub proof fn law_right_undoes_left(count: int, i: int)
    requires
        0 <= i < count,
    ensures
        right_index(count, Some(left_index(count, Some(i)))) == i,
{
}

/// Every move lands on a shown tag.
pub proof fn law_moves_stay_in_the_grid(count: int, cols: int, cur: Option<int>)
    requires
        count >= 1,
        cols >= 1,
        cur matches Some(i) ==> 0 <= i < count,
    ensures
        0 <= left_index(count, cur) < count,
        0 <= right_index(count, cur) < count,
        0 <= up_index(count, cols, cur) < count,
        0 <= down_index(count, cols, cur) < count,
{
    if let Some(i) = cur {
        lemma_rows(count, cols, i);
        if i < cols {
            lemma_up_in_grid(count, cols, i);
        }
    }
}

/// `Up` from the top row lands inside the grid, in the same column.
proof fn lemma_up_in_grid(count: int, cols: int, i: int)
    requires
        cols >= 1,
        0 <= i < count,
        i < cols,
    ensures
        0 <= up_index(count, cols, Some(i)) < count,
        up_index(count, cols, Some(i)) % cols == i,
        up_index(count, cols, Some(i)) + cols >= count,
{
    lemma_rows(count, cols, i);
    let r = (count - 1) / cols;
    let below = r * cols + i;
    if below >= count {
        assert(r >= 1) by (nonlinear_arith)
            requires below == r * cols + i, below >= count, i < count, r >= 0;
        assert((r - 1) * cols + i == below - cols) by (nonlinear_arith)
            requires below == r * cols + i;
        assert(((r - 1) * cols + i) % cols == i) by (nonlinear_arith)
            requires cols >= 1, 0 <= i < cols, r >= 1;
    } else {
        assert((r * cols + i) % cols == i) by (nonlinear_arith)
            requires cols >= 1, 0 <= i < cols, r >= 0;
    }
}

/// From a shown tag, `Down` then `Up` comes back to it.
pub proof fn law_up_undoes_down(count: int, cols: int, i: int)
    requires
        cols >= 1,
        0 <= i < count,
    ensures
        up_index(count, cols, Some(down_index(count, cols, Some(i)))) == i,
{
    lemma_rows(count, cols, i);
    if i + cols >= count {
        let x = i % cols;
        let r = (count - 1) / cols;
        let q = i / cols;
        assert(i == q * cols + x) by (nonlinear_arith)
            requires cols >= 1, x == i % cols, q == i / cols;
        lemma_small_row(count, cols, i, q, r, x);
    }
}

/// A tag with no tag below it is in the last row, or in the row above it past the last row's
/// end; either way `Up` from the top of its column finds it.
proof fn lemma_small_row(count: int, cols: int, i: int, q: int, r: int, x: int)
    requires
        cols >= 1,
        0 <= i < count,
        i + cols >= count,
        0 <= x < cols,
        i == q * cols + x,
        r == (count - 1) / cols,
        r * cols <= count - 1,
        r * cols + cols > count - 1,
    ensures
        up_index(count, cols, Some(x)) == i,
{
    vstd::arithmetic::div_mod::lemma_small_mod(x as nat, cols as nat);
    assert(q >= 0) by (nonlinear_arith)
        requires i == q * cols + x, i >= 0, 0 <= x < cols, cols >= 1;
    // i sits in row q: q == r or q == r - 1
    assert(q <= r) by (nonlinear_arith)
        requires i == q * cols + x, i < count, r * cols + cols > count - 1, x >= 0, cols >= 1;
    assert(q >= r - 1) by (nonlinear_arith)
        requires i == q * cols + x, i + cols >= count, r * cols <= count - 1, x < cols, cols >= 1;
    let below = r * cols + x;
    if q == r {
        assert(below == i);
    } else {
        assert(q == r - 1);
        assert(below == i + cols) by (nonlinear_arith)
            requires below == r * cols + x, i == q * cols + x, q == r - 1;
    }
}

/// From a shown tag, `Up` then `Down` comes back to it.
pub proof fn law_down_undoes_up(count: int, cols: int, i: int)
    requires
        cols >= 1,
        0 <= i < count,
    ensures
        down_index(count, cols, Some(up_index(count, cols, Some(i)))) == i,
{
    lemma_rows(count, cols, i);
    if i < cols {
        lemma_up_in_grid(count, cols, i);
    } else {
        assert(i - cols >= 0);
    }
}

} // verus!
