//! The main window's keyboard shortcuts: which key press does what. A key typed while no text
//! field has the focus goes into the tag search; a few keys work even while a text field has
//! it. The app turns the windowing library's key events into [`Key`] and [`Modifiers`] and
//! carries out the [`Shortcut`].

use vstd::prelude::*;
use vstd::string::*;

use crate::folder::GlobalSearchKey;
use crate::text::str_eq;

verus! {

/// The named keys the shortcuts use; every other named key is `Other`.
#[derive(Debug, Clone, Copy, PartialEq, Eq, Structural)]
pub enum NamedKey {
    Space,
    F5,
    Escape,
    Enter,
    ArrowLeft,
    ArrowRight,
    ArrowUp,
    ArrowDown,
    PageUp,
    PageDown,
    Delete,
    Backspace,
    Other,
}

/// A pressed key: a named key, the text of a character key, or a key the system could not
/// name.
#[derive(Debug, Clone, PartialEq, Eq)]
pub enum Key {
    Named(NamedKey),
    Character(String),
    Unidentified,
}

/// A pressed key, with a character key's text as characters.
pub enum KeyView {
    Named(NamedKey),
    Character(Seq<char>),
    Unidentified,
}

impl View for Key {
    type V = KeyView;

    open spec fn view(&self) -> KeyView {
        match self {
            Key::Named(n) => KeyView::Named(*n),
            Key::Character(c) => KeyView::Character(c@),
            Key::Unidentified => KeyView::Unidentified,
        }
    }
}

/// The modifier keys held: Shift, and the platform's command key (Ctrl, or Cmd on macOS).
#[derive(Debug, Clone, Copy, PartialEq, Eq, Structural)]
pub struct Modifiers {
    pub shift: bool,
    pub command: bool,
}

/// What a key press does.
#[derive(Debug, Clone, Copy, PartialEq, Eq, Structural)]
pub enum Shortcut {
    /// Tag or untag the selected tag (`Shift+Space`).
    ToggleSelectedTag,
    /// Play or pause the video (`Space`).
    TogglePause,
    /// Media viewer fullscreen on or off (`F5`).
    ToggleMediaFullscreen,
    /// Segment IN (`[`) and OUT (`]`) at the playhead.
    SetSegmentStart,
    SetSegmentEnd,
    /// Leave fullscreen, or clear the search filter (`Escape`).
    EscapePressed,
    /// Save the selected tag to the store (`Enter`).
    SaveSelectedTag,
    /// Taken and dropped: `Enter` in a text field, so that Windows does not beep.
    Consume,
    CopyTags,
    Undo,
    Redo,
    SelectLeft,
    SelectRight,
    SelectUp,
    SelectDown,
    PreviousFile,
    NextFile,
    RemoveTag,
    /// Focus the search bar and play the key into it.
    TypeIntoSearch(GlobalSearchKey),
}

/// Whether `key` is the character key whose text is `text`.
pub open spec fn is_char(key: KeyView, text: Seq<char>) -> bool {
    key matches KeyView::Character(c) && c == text
}

/// What a key with the command key held does, when no text field has the focus.
pub open spec fn command_shortcut(key: KeyView, modifiers: Modifiers) -> Option<Shortcut> {
    if is_char(key, "c"@) {
        Some(Shortcut::CopyTags)
    } else if is_char(key, "z"@) {
        if modifiers.shift { Some(Shortcut::Redo) } else { Some(Shortcut::Undo) }
    } else if is_char(key, "y"@) {
        Some(Shortcut::Redo)
    } else {
        None
    }
}

/// What a named key does when no text field has the focus, if it is one of the navigation
/// keys.
pub open spec fn navigation_shortcut(name: NamedKey) -> Option<Shortcut> {
    match name {
        NamedKey::ArrowLeft => Some(Shortcut::SelectLeft),
        NamedKey::ArrowRight => Some(Shortcut::SelectRight),
        NamedKey::ArrowUp => Some(Shortcut::SelectUp),
        NamedKey::ArrowDown => Some(Shortcut::SelectDown),
        NamedKey::PageUp => Some(Shortcut::PreviousFile),
        NamedKey::PageDown => Some(Shortcut::NextFile),
        NamedKey::Delete => Some(Shortcut::RemoveTag),
        _ => None,
    }
}

/// The key played into the search bar: a character key's first character, Backspace or
/// Delete.
pub open spec fn search_key(key: KeyView) -> Option<GlobalSearchKey> {
    match key {
        KeyView::Character(c) => if c.len() > 0 { Some(GlobalSearchKey::Char(c[0])) } else { None },
        KeyView::Named(NamedKey::Backspace) => Some(GlobalSearchKey::Backspace),
        KeyView::Named(NamedKey::Delete) => Some(GlobalSearchKey::Delete),
        _ => None,
    }
}

/// What pressing `key` with `modifiers` does; `captured` when a text field took the key.
pub open spec fn shortcut(key: KeyView, modifiers: Modifiers, captured: bool) -> Option<Shortcut> {
    if key == KeyView::Named(NamedKey::Space) && modifiers.shift {
        Some(Shortcut::ToggleSelectedTag)
    } else if key == KeyView::Named(NamedKey::Space) && !captured {
        Some(Shortcut::TogglePause)
    } else if key == KeyView::Named(NamedKey::F5) {
        Some(Shortcut::ToggleMediaFullscreen)
    } else if is_char(key, "["@) {
        Some(Shortcut::SetSegmentStart)
    } else if is_char(key, "]"@) {
        Some(Shortcut::SetSegmentEnd)
    } else if key == KeyView::Named(NamedKey::Escape) {
        Some(Shortcut::EscapePressed)
    } else if key == KeyView::Named(NamedKey::Enter) {
        if captured { Some(Shortcut::Consume) } else { Some(Shortcut::SaveSelectedTag) }
    } else if captured {
        None
    } else if modifiers.command {
        command_shortcut(key, modifiers)
    } else {
        match key {
            KeyView::Named(name) => match navigation_shortcut(name) {
                Some(s) => Some(s),
                None => match search_key(key) {
                    Some(k) => Some(Shortcut::TypeIntoSearch(k)),
                    None => None,
                },
            },
            _ => match search_key(key) {
                Some(k) => Some(Shortcut::TypeIntoSearch(k)),
                None => None,
            },
        }
    }
}

/// Whether `key` is the character key `text`, computed.
fn key_is_char(key: &Key, text: &str) -> (is: bool)
    ensures
        is == is_char(key@, text@),
{
    match key {
        Key::Character(c) => str_eq(c.as_str(), text),
        _ => false,
    }
}

/// Whether `key` is the named key `name`.
fn key_is_named(key: &Key, name: NamedKey) -> (is: bool)
    ensures
        is == (key@ == KeyView::Named(name)),
{
    match key {
        Key::Named(n) => *n == name,
        _ => false,
    }
}

/// What pressing `key` with `modifiers` does in the main window; `captured` when a text field
/// took the key. `None`: nothing, the key goes on to the focused widget if any.
pub fn key_pressed(key: &Key, modifiers: Modifiers, captured: bool) -> (action: Option<Shortcut>)
    ensures
        action == shortcut(key@, modifiers, captured),
{
    proof {
        reveal_strlit("[");
        reveal_strlit("]");
        reveal_strlit("c");
        reveal_strlit("z");
        reveal_strlit("y");
    }
    if key_is_named(key, NamedKey::Space) && modifiers.shift {
        return Some(Shortcut::ToggleSelectedTag);
    }
    if key_is_named(key, NamedKey::Space) && !captured {
        return Some(Shortcut::TogglePause);
    }
    if key_is_named(key, NamedKey::F5) {
        return Some(Shortcut::ToggleMediaFullscreen);
    }
    if key_is_char(key, "[") {
        return Some(Shortcut::SetSegmentStart);
    }
    if key_is_char(key, "]") {
        return Some(Shortcut::SetSegmentEnd);
    }
    if key_is_named(key, NamedKey::Escape) {
        return Some(Shortcut::EscapePressed);
    }
    if key_is_named(key, NamedKey::Enter) {
        return if captured { Some(Shortcut::Consume) } else { Some(Shortcut::SaveSelectedTag) };
    }
    if captured {
        return None;
    }
    if modifiers.command {
        return if key_is_char(key, "c") {
            Some(Shortcut::CopyTags)
        } else if key_is_char(key, "z") {
            if modifiers.shift { Some(Shortcut::Redo) } else { Some(Shortcut::Undo) }
        } else if key_is_char(key, "y") {
            Some(Shortcut::Redo)
        } else {
            None
        };
    }
    if let Key::Named(name) = key {
        let navigation = match name {
            NamedKey::ArrowLeft => Some(Shortcut::SelectLeft),
            NamedKey::ArrowRight => Some(Shortcut::SelectRight),
            NamedKey::ArrowUp => Some(Shortcut::SelectUp),
            NamedKey::ArrowDown => Some(Shortcut::SelectDown),
            NamedKey::PageUp => Some(Shortcut::PreviousFile),
            NamedKey::PageDown => Some(Shortcut::NextFile),
            NamedKey::Delete => Some(Shortcut::RemoveTag),
            _ => None,
        };
        if navigation.is_some() {
            return navigation;
        }
    }
    let typed = match key {
        Key::Character(c) => if c.as_str().unicode_len() > 0 {
            Some(GlobalSearchKey::Char(c.as_str().get_char(0)))
        } else {
            None
        },
        Key::Named(NamedKey::Backspace) => Some(GlobalSearchKey::Backspace),
        Key::Named(NamedKey::Delete) => Some(GlobalSearchKey::Delete),
        _ => None,
    };
    match typed {
        Some(k) => Some(Shortcut::TypeIntoSearch(k)),
        None => None,
    }
}

/// `Ctrl+V` while tags are copied pastes them, even while the search bar has the focus.
pub fn pastes_tags(key: &Key, modifiers: Modifiers) -> (paste: bool)
    ensures
        paste == (is_char(key@, "v"@) && modifiers.command),
{
    key_is_char(key, "v") && modifiers.command
}

/// `[` and `]` set the segment even while a text field has the focus, and `F5` and `Escape`
/// work there too.
pub proof fn law_segment_keys_work_everywhere(modifiers: Modifiers, captured: bool)
    ensures
        shortcut(KeyView::Character("["@), modifiers, captured) == Some(Shortcut::SetSegmentStart),
        shortcut(KeyView::Character("]"@), modifiers, captured) == Some(Shortcut::SetSegmentEnd),
        shortcut(KeyView::Named(NamedKey::F5), modifiers, captured) == Some(Shortcut::ToggleMediaFullscreen),
        shortcut(KeyView::Named(NamedKey::Escape), modifiers, captured) == Some(Shortcut::EscapePressed),
{
    reveal_strlit("[");
    reveal_strlit("]");
    reveal_strlit("c");
    reveal_strlit("z");
    reveal_strlit("y");
}

/// While a text field has the focus, a key typed into it stays there: only `Shift+Space`,
/// `F5`, `[`, `]`, `Escape` and `Enter` (consumed) do anything.
pub proof fn law_a_focused_field_keeps_its_keys(key: KeyView, modifiers: Modifiers)
    requires
        !(key == KeyView::Named(NamedKey::Space) && modifiers.shift),
        key != KeyView::Named(NamedKey::F5),
        key != KeyView::Named(NamedKey::Escape),
        key != KeyView::Named(NamedKey::Enter),
        !is_char(key, "["@),
        !is_char(key, "]"@),
    ensures
        shortcut(key, modifiers, true) is None,
{
}

/// Undo and redo undo each other's key: `Ctrl+Z` undoes, `Ctrl+Shift+Z` and `Ctrl+Y` redo.
pub proof fn law_undo_and_redo_keys()
    ensures
        shortcut(KeyView::Character("z"@), (Modifiers { shift: false, command: true }), false) == Some(Shortcut::Undo),
        shortcut(KeyView::Character("z"@), (Modifiers { shift: true, command: true }), false) == Some(Shortcut::Redo),
        shortcut(KeyView::Character("y"@), (Modifiers { shift: false, command: true }), false) == Some(Shortcut::Redo),
{
    reveal_strlit("[");
    reveal_strlit("]");
    reveal_strlit("c");
    reveal_strlit("z");
    reveal_strlit("y");
}

/// Space with Shift held tags or untags the file with the selected tag, whether or not a text
/// field has the focus; Space alone plays or pauses the video, unless a text field took it.
pub proof fn law_space_toggles_the_tag_with_shift_and_the_video_without(modifiers: Modifiers, captured: bool)
    ensures
        modifiers.shift ==> shortcut(KeyView::Named(NamedKey::Space), modifiers, captured) == Some(
            Shortcut::ToggleSelectedTag,
        ),
        !modifiers.shift && !captured ==> shortcut(KeyView::Named(NamedKey::Space), modifiers, captured)
            == Some(Shortcut::TogglePause),
        !modifiers.shift && captured ==> shortcut(KeyView::Named(NamedKey::Space), modifiers, captured) is None,
{
}

} // verus!
