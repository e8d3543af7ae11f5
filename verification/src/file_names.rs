//! File names: the name line of the file name panel, the names typed into the in-place rename
//! editor of the folder list (what Windows refuses, what would replace another file), and the
//! part of a name the editor selects when it opens.

use vstd::prelude::*;
use vstd::string::*;

use crate::text::{str_eq, trim, trimmed};

verus! {

/// The display string of a file name: its name and extension one after the other (the
/// extension already holds its dot when it has one).
pub fn name_ext_from_parts(name: &str, ext: &str) -> (name_ext: String)
    ensures
        name_ext@ == name@ + ext@,
{
    if name.unicode_len() == 0 {
        proof {
            assert(name@ + ext@ =~= ext@);
        }
        String::from_str(ext)
    } else if ext.unicode_len() == 0 {
        proof {
            assert(name@ + ext@ =~= name@);
        }
        String::from_str(name)
    } else {
        let mut s = String::from_str(name);
        s.append(ext);
        s
    }
}

/// Characters Windows does not allow in a file name.
pub open spec fn is_reserved(c: char) -> bool {
    c == '\\' || c == '/' || c == ':' || c == '*' || c == '?' || c == '"' || c == '<' || c == '>'
        || c == '|'
}

/// A control character: Unicode's general category Cc, U+0000 to U+001F and U+007F to U+009F.
pub open spec fn is_control(c: char) -> bool {
    (c as u32) <= 0x1f || (0x7f <= (c as u32) && (c as u32) <= 0x9f)
}

/// The code of `c` with an ASCII capital letter made small.
pub open spec fn ascii_lower(c: char) -> u32 {
    if 'A' <= c && c <= 'Z' { ((c as u32) + 32) as u32 } else { c as u32 }
}

/// Whether two names are the same but for the case of ASCII letters.
pub open spec fn same_ignoring_ascii_case(a: Seq<char>, b: Seq<char>) -> bool {
    a.len() == b.len() && forall|i: int| 0 <= i < a.len() ==> ascii_lower(a[i]) == ascii_lower(b[i])
}

/// Why `typed` cannot replace `current` as a file name, if it cannot. `typed_exists` says
/// whether a file named `typed` is in the folder already: a rename on Windows replaces an
/// existing file of the same name, so a clash is refused, unless the names differ only in case
/// (the same file on Windows).
pub open spec fn name_problem(current: Seq<char>, typed: Seq<char>, typed_exists: bool) -> Option<Seq<char>> {
    if typed.len() == 0 {
        Some("Name is empty"@)
    } else if exists|i: int| 0 <= i < typed.len() && (is_reserved(typed[i]) || is_control(typed[i])) {
        Some("Not allowed: \\ / : * ? \" < > |"@)
    } else if typed.last() == '.' || typed.last() == ' ' {
        Some("Cannot end with a dot or space"@)
    } else if !same_ignoring_ascii_case(typed, current) && typed_exists {
        Some("A file with this name exists"@)
    } else {
        None
    }
}

/// Whether the character is refused in a name.
fn refused_char(c: char) -> (refused: bool)
    ensures
        refused == (is_reserved(c) || is_control(c)),
{
    let code = c as u32;
    c == '\\' || c == '/' || c == ':' || c == '*' || c == '?' || c == '"' || c == '<' || c == '>'
        || c == '|' || code <= 0x1f || (0x7f <= code && code <= 0x9f)
}

/// The code of the character with an ASCII capital made small.
fn lower_ascii(c: char) -> (lower: u32)
    ensures
        lower == ascii_lower(c),
{
    let code = c as u32;
    if 'A' <= c && c <= 'Z' {
        code + 32
    } else {
        code
    }
}

/// Whether `a` and `b` are the same name but for the case of ASCII letters.
pub fn eq_ignore_ascii_case(a: &str, b: &str) -> (same: bool)
    ensures
        same == same_ignoring_ascii_case(a@, b@),
{
    let n = a.unicode_len();
    if n != b.unicode_len() {
        return false;
    }
    let mut i: usize = 0;
    while i < n
        invariant
            n == a@.len(),
            n == b@.len(),
            i <= n,
            forall|j: int| 0 <= j < i ==> ascii_lower(a@[j]) == ascii_lower(b@[j]),
        decreases n - i,
    {
        if lower_ascii(a.get_char(i)) != lower_ascii(b.get_char(i)) {
            return false;
        }
        i = i + 1;
    }
    true
}

/// Why `typed` cannot replace `current` as a file name in its folder, if it cannot;
/// `typed_exists` says whether the folder already holds a file named `typed`.
pub fn check_new_file_name(current: &str, typed: &str, typed_exists: bool) -> (checked: Result<(), &'static str>)
    ensures
        match checked {
            Ok(()) => name_problem(current@, typed@, typed_exists) is None,
            Err(reason) => name_problem(current@, typed@, typed_exists) == Some(reason@),
        },
{
    let n = typed.unicode_len();
    if n == 0 {
        return Err("Name is empty");
    }
    let mut i: usize = 0;
    while i < n
        invariant
            n == typed@.len(),
            i <= n,
            forall|j: int| 0 <= j < i ==> !(is_reserved(typed@[j]) || is_control(typed@[j])),
        decreases n - i,
    {
        if refused_char(typed.get_char(i)) {
            return Err("Not allowed: \\ / : * ? \" < > |");
        }
        i = i + 1;
    }
    let last = typed.get_char(n - 1);
    if last == '.' || last == ' ' {
        return Err("Cannot end with a dot or space");
    }
    // A change of case only is the same file on Windows, not a clash.
    if !eq_ignore_ascii_case(typed, current) && typed_exists {
        return Err("A file with this name exists");
    }
    Ok(())
}

/// Every character the refusal lists ("\\ / : * ? \" < > |", after "Not allowed: ") and
/// every control character up to U+001F is refused: a name holding one gets that refusal,
/// unless it is empty.
pub proof fn law_the_listed_characters_are_refused(current: Seq<char>, typed: Seq<char>, typed_exists: bool, i: int, k: int)
    requires
        0 <= i < typed.len(),
        ({
            let message = "Not allowed: \\ / : * ? \" < > |"@;
            (13 <= k < message.len() && message[k] != ' ' && typed[i] == message[k]) || (typed[i] as u32) <= 0x1f
        }),
    ensures
        name_problem(current, typed, typed_exists) == Some("Not allowed: \\ / : * ? \" < > |"@),
{
    reveal_strlit("Not allowed: \\ / : * ? \" < > |");
    reveal_strlit("Name is empty");
    assert(is_reserved(typed[i]) || is_control(typed[i]));
}

/// A name is taken when it holds something, none of the characters the refusal lists nor a
/// control character, does not end in a dot or a space, and names no other file of the folder
/// (a change of case alone renames the same file).
pub proof fn law_a_clean_name_is_taken(current: Seq<char>, typed: Seq<char>, typed_exists: bool)
    requires
        typed.len() > 0,
        forall|i: int, k: int| 0 <= i < typed.len() && 13 <= k < "Not allowed: \\ / : * ? \" < > |"@.len()
            && "Not allowed: \\ / : * ? \" < > |"@[k] != ' ' ==> #[trigger] typed[i] != #[trigger] "Not allowed: \\ / : * ? \" < > |"@[k],
        forall|i: int| 0 <= i < typed.len() ==> 0x1f < (#[trigger] typed[i] as u32) && !(0x7f <= (typed[i] as u32) <= 0x9f),
        typed.last() != '.' && typed.last() != ' ',
        !typed_exists || same_ignoring_ascii_case(typed, current),
    ensures
        name_problem(current, typed, typed_exists) is None,
{
    reveal_strlit("Not allowed: \\ / : * ? \" < > |");
    let message = "Not allowed: \\ / : * ? \" < > |"@;
    assert forall|i: int| 0 <= i < typed.len() implies !(is_reserved(#[trigger] typed[i]) || is_control(typed[i])) by {
        assert(typed[i] != message[13]);
        assert(typed[i] != message[15]);
        assert(typed[i] != message[17]);
        assert(typed[i] != message[19]);
        assert(typed[i] != message[21]);
        assert(typed[i] != message[23]);
        assert(typed[i] != message[25]);
        assert(typed[i] != message[27]);
        assert(typed[i] != message[29]);
    }
}

/// Whether `i` is where the last dot of `name` stands.
pub open spec fn is_last_dot(name: Seq<char>, i: int) -> bool {
    0 <= i < name.len() && name[i] == '.' && forall|j: int| i < j < name.len() ==> name[j] != '.'
}

/// The number of characters before the last dot of `name`, or all of them without a dot: the
/// part the rename editor selects, as Windows Explorer does.
pub open spec fn stem_len(name: Seq<char>) -> nat {
    if exists|i: int| is_last_dot(name, i) {
        (choose|i: int| is_last_dot(name, i)) as nat
    } else {
        name.len()
    }
}

/// The characters of `name` before its extension's dot, counted.
pub fn stem_chars(name: &str) -> (count: usize)
    ensures
        count == stem_len(name@),
{
    let n = name.unicode_len();
    let mut i = n;
    while i > 0
        invariant
            n == name@.len(),
            i <= n,
            forall|j: int| i <= j < n ==> name@[j] != '.',
        decreases i,
    {
        if name.get_char(i - 1) == '.' {
            proof {
                assert(is_last_dot(name@, i - 1));
                let c = choose|c: int| is_last_dot(name@, c);
                assert(c == i - 1);
            }
            return i - 1;
        }
        i = i - 1;
    }
    proof {
        assert(!exists|c: int| is_last_dot(name@, c));
    }
    n
}

/// A file being renamed in place in the folder list (double-click on its name).
#[derive(Debug, Clone)]
pub struct InlineRename {
    /// The file being renamed.
    pub id: u64,
    /// The name as typed so far: the whole file name, extension included.
    pub text: String,
    /// Why the last Enter was refused; cleared by the next edit.
    pub error: Option<&'static str>,
}

/// What Enter in the rename editor does.
#[derive(Debug, Clone, PartialEq, Eq)]
pub enum RenameOutcome {
    /// The name did not change: the editor closes.
    Unchanged,
    /// The name is refused: the editor stays open with the reason.
    Refused,
    /// Rename the file to this name; the editor closes.
    Rename(String),
}

/// What Enter does with the typed text `text`, for the file named `current`: `typed_exists`
/// whether the folder holds a file named as typed (without the white space at either end),
/// `normalized` that name as the file name is written back from its tags, and
/// `normalized_exists` whether the folder holds a file of that name. Both names must pass.
pub open spec fn rename_outcome(
    text: Seq<char>,
    current: Seq<char>,
    typed_exists: bool,
    normalized: Seq<char>,
    normalized_exists: bool,
) -> (Option<Seq<char>>, Option<Seq<char>>) {
    let typed = trimmed(text);
    if typed == current {
        (None, None)
    } else if name_problem(current, typed, typed_exists) is Some {
        (name_problem(current, typed, typed_exists), None)
    } else if name_problem(current, normalized, normalized_exists) is Some {
        (name_problem(current, normalized, normalized_exists), None)
    } else {
        (None, Some(typed))
    }
}

impl InlineRename {
    /// Open the editor on the file `id` named `name`. Returns it with the number of characters
    /// to select from the start: the name before its extension, as Windows Explorer does.
    pub fn start(id: u64, name: String) -> (started: (InlineRename, usize))
        ensures
            started.0.id == id,
            started.0.text@ == name@,
            started.0.error is None,
            started.1 == stem_len(name@),
    {
        let selected = stem_chars(name.as_str());
        (InlineRename { id, text: name, error: None }, selected)
    }

    /// Text typed into the editor: it replaces the text and clears the reason of a refusal.
    pub fn input(&mut self, text: String)
        ensures
            final(self).id == old(self).id,
            final(self).text@ == text@,
            final(self).error is None,
    {
        self.text = text;
        self.error = None;
    }

    /// The name to rename to: the text without white space at either end.
    pub fn typed(&self) -> (typed: String)
        ensures
            typed@ == trimmed(self.text@),
    {
        trim(self.text.as_str())
    }

    /// Enter, for the file named `current` (see [`rename_outcome`] for the other arguments).
    /// A refused name keeps the editor open with the reason.
    pub fn submit(
        &mut self,
        current: &str,
        typed_exists: bool,
        normalized: &str,
        normalized_exists: bool,
    ) -> (outcome: RenameOutcome)
        ensures
            final(self).id == old(self).id,
            final(self).text@ == old(self).text@,
            ({
                let (refusal, renamed) = rename_outcome(old(self).text@, current@, typed_exists, normalized@, normalized_exists);
                match outcome {
                    RenameOutcome::Unchanged => refusal is None && renamed is None
                        && final(self).error == old(self).error,
                    RenameOutcome::Refused => final(self).error matches Some(e) && refusal == Some(e@),
                    RenameOutcome::Rename(name) => renamed == Some(name@)
                        && final(self).error == old(self).error,
                }
            }),
    {
        let typed = self.typed();
        if str_eq(typed.as_str(), current) {
            return RenameOutcome::Unchanged;
        }
        match check_new_file_name(current, typed.as_str(), typed_exists) {
            Err(reason) => {
                self.error = Some(reason);
                return RenameOutcome::Refused;
            },
            Ok(()) => {},
        }
        match check_new_file_name(current, normalized, normalized_exists) {
            Err(reason) => {
                self.error = Some(reason);
                RenameOutcome::Refused
            },
            Ok(()) => RenameOutcome::Rename(typed),
        }
    }
}

} // verus!
