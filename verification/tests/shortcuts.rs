use frename::folder::GlobalSearchKey;
use frename::shortcuts::{key_pressed, pastes_tags, Key, Modifiers, NamedKey, Shortcut};

const NONE: Modifiers = Modifiers { shift: false, command: false };
const SHIFT: Modifiers = Modifiers { shift: true, command: false };
const CTRL: Modifiers = Modifiers { shift: false, command: true };
const CTRL_SHIFT: Modifiers = Modifiers { shift: true, command: true };

fn ch(text: &str) -> Key {
    Key::Character(text.to_string())
}

#[test]
fn space_plays_and_shift_space_tags() {
    let space = Key::Named(NamedKey::Space);
    assert_eq!(key_pressed(&space, SHIFT, true), Some(Shortcut::ToggleSelectedTag));
    assert_eq!(key_pressed(&space, NONE, false), Some(Shortcut::TogglePause));
    assert_eq!(key_pressed(&space, NONE, true), None, "a space typed into a field");
}

#[test]
fn some_keys_work_even_in_a_text_field() {
    assert_eq!(key_pressed(&ch("["), NONE, true), Some(Shortcut::SetSegmentStart));
    assert_eq!(key_pressed(&ch("]"), NONE, true), Some(Shortcut::SetSegmentEnd));
    assert_eq!(key_pressed(&Key::Named(NamedKey::F5), NONE, true), Some(Shortcut::ToggleMediaFullscreen));
    assert_eq!(key_pressed(&Key::Named(NamedKey::Escape), NONE, true), Some(Shortcut::EscapePressed));
    assert_eq!(key_pressed(&Key::Named(NamedKey::Enter), NONE, true), Some(Shortcut::Consume));
    assert_eq!(key_pressed(&Key::Named(NamedKey::Enter), NONE, false), Some(Shortcut::SaveSelectedTag));
    assert_eq!(key_pressed(&ch("a"), NONE, true), None);
    assert_eq!(key_pressed(&Key::Named(NamedKey::ArrowLeft), NONE, true), None);
}

#[test]
fn command_keys_copy_undo_and_redo() {
    assert_eq!(key_pressed(&ch("c"), CTRL, false), Some(Shortcut::CopyTags));
    assert_eq!(key_pressed(&ch("z"), CTRL, false), Some(Shortcut::Undo));
    assert_eq!(key_pressed(&ch("z"), CTRL_SHIFT, false), Some(Shortcut::Redo));
    assert_eq!(key_pressed(&ch("y"), CTRL, false), Some(Shortcut::Redo));
    assert_eq!(key_pressed(&ch("x"), CTRL, false), None);
    assert_eq!(key_pressed(&Key::Named(NamedKey::ArrowLeft), CTRL, false), None);
}

#[test]
fn arrows_page_keys_and_delete_navigate() {
    let named = |n| key_pressed(&Key::Named(n), NONE, false);
    assert_eq!(named(NamedKey::ArrowLeft), Some(Shortcut::SelectLeft));
    assert_eq!(named(NamedKey::ArrowRight), Some(Shortcut::SelectRight));
    assert_eq!(named(NamedKey::ArrowUp), Some(Shortcut::SelectUp));
    assert_eq!(named(NamedKey::ArrowDown), Some(Shortcut::SelectDown));
    assert_eq!(named(NamedKey::PageUp), Some(Shortcut::PreviousFile));
    assert_eq!(named(NamedKey::PageDown), Some(Shortcut::NextFile));
    assert_eq!(named(NamedKey::Delete), Some(Shortcut::RemoveTag));
    assert_eq!(named(NamedKey::Other), None);
}

#[test]
fn other_keys_type_into_the_search() {
    assert_eq!(
        key_pressed(&ch("g"), NONE, false),
        Some(Shortcut::TypeIntoSearch(GlobalSearchKey::Char('g')))
    );
    assert_eq!(
        key_pressed(&ch("ég"), SHIFT, false),
        Some(Shortcut::TypeIntoSearch(GlobalSearchKey::Char('é')))
    );
    assert_eq!(
        key_pressed(&Key::Named(NamedKey::Backspace), NONE, false),
        Some(Shortcut::TypeIntoSearch(GlobalSearchKey::Backspace))
    );
    assert_eq!(key_pressed(&ch(""), NONE, false), None);
    assert_eq!(key_pressed(&Key::Unidentified, NONE, false), None);
}

#[test]
fn ctrl_v_pastes_copied_tags() {
    assert!(pastes_tags(&ch("v"), CTRL));
    assert!(!pastes_tags(&ch("v"), NONE));
    assert!(!pastes_tags(&ch("c"), CTRL));
}
