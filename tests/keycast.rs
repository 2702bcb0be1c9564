use keycast::glyph::keycode_to_string;
use keycast::keys::Key;
use keycast::keyset::KeySet;
use keycast::tracker::{EventKind, KeyEvent, KeyTracker};

fn all_keys() -> Vec<Key> {
    vec![
        Key::Key0,
        Key::Key1,
        Key::Key2,
        Key::Key3,
        Key::Key4,
        Key::Key5,
        Key::Key6,
        Key::Key7,
        Key::Key8,
        Key::Key9,
        Key::A,
        Key::B,
        Key::C,
        Key::D,
        Key::E,
        Key::F,
        Key::G,
        Key::H,
        Key::I,
        Key::J,
        Key::K,
        Key::L,
        Key::M,
        Key::N,
        Key::O,
        Key::P,
        Key::Q,
        Key::R,
        Key::S,
        Key::T,
        Key::U,
        Key::V,
        Key::W,
        Key::X,
        Key::Y,
        Key::Z,
        Key::F1,
        Key::F2,
        Key::F3,
        Key::F4,
        Key::F5,
        Key::F6,
        Key::F7,
        Key::F8,
        Key::F9,
        Key::F10,
        Key::F11,
        Key::F12,
        Key::F13,
        Key::F14,
        Key::F15,
        Key::F16,
        Key::F17,
        Key::F18,
        Key::F19,
        Key::F20,
        Key::Escape,
        Key::Space,
        Key::LControl,
        Key::RControl,
        Key::LShift,
        Key::RShift,
        Key::LAlt,
        Key::RAlt,
        Key::Command,
        Key::RCommand,
        Key::LOption,
        Key::ROption,
        Key::LMeta,
        Key::RMeta,
        Key::Enter,
        Key::Up,
        Key::Down,
        Key::Left,
        Key::Right,
        Key::Backspace,
        Key::CapsLock,
        Key::Tab,
        Key::Home,
        Key::End,
        Key::PageUp,
        Key::PageDown,
        Key::Insert,
        Key::Delete,
        Key::Numpad0,
        Key::Numpad1,
        Key::Numpad2,
        Key::Numpad3,
        Key::Numpad4,
        Key::Numpad5,
        Key::Numpad6,
        Key::Numpad7,
        Key::Numpad8,
        Key::Numpad9,
        Key::NumpadSubtract,
        Key::NumpadAdd,
        Key::NumpadDivide,
        Key::NumpadMultiply,
        Key::NumpadEquals,
        Key::NumpadEnter,
        Key::NumpadDecimal,
        Key::Grave,
        Key::Minus,
        Key::Equal,
        Key::LeftBracket,
        Key::RightBracket,
        Key::BackSlash,
        Key::Semicolon,
        Key::Apostrophe,
        Key::Comma,
        Key::Dot,
        Key::Slash,
    ]
}

fn set_of(keys: &[Key]) -> KeySet {
    KeySet::from_keys(&keys.to_vec())
}

fn glyphs(events: &[KeyEvent], kind: EventKind) -> Vec<String> {
    let mut out: Vec<String> = events.iter().filter(|e| e.kind == kind).map(|e| e.glyph.clone()).collect();
    out.sort();
    out
}

fn codes(events: &[KeyEvent], kind: EventKind) -> Vec<Key> {
    events.iter().filter(|e| e.kind == kind).map(|e| e.code).collect()
}

#[test]
fn letter_is_lower_case_without_shift_or_caps_lock() {
    assert_eq!(keycode_to_string(&Key::A, false), "a");
    assert_eq!(keycode_to_string(&Key::Z, false), "z");
}

#[test]
fn letter_is_upper_case_when_uppercase() {
    assert_eq!(keycode_to_string(&Key::A, true), "A");
    assert_eq!(keycode_to_string(&Key::Q, true), "Q");
}

#[test]
fn shift_held_gives_upper_case_letter() {
    let mut t = KeyTracker::new();
    let ev = t.tick(set_of(&[Key::RShift, Key::A]));
    assert_eq!(glyphs(&ev, EventKind::Press), vec!["A".to_string(), "⇧".to_string()]);
    assert!(!t.caps_lock_on());
}

#[test]
fn caps_lock_on_gives_upper_case_letter() {
    let mut t = KeyTracker::new();
    t.tick(set_of(&[Key::CapsLock]));
    t.tick(set_of(&[]));
    assert!(t.caps_lock_on());
    let ev = t.tick(set_of(&[Key::A]));
    assert_eq!(glyphs(&ev, EventKind::Press), vec!["A".to_string()]);
}

#[test]
fn no_shift_no_caps_lock_gives_lower_case_letter() {
    let mut t = KeyTracker::new();
    let ev = t.tick(set_of(&[Key::A]));
    assert_eq!(ev.len(), 1);
    assert_eq!(ev[0].glyph, "a");
    assert_eq!(ev[0].kind, EventKind::Press);
}

#[test]
fn every_key_has_a_non_empty_glyph() {
    for k in all_keys() {
        assert!(!keycode_to_string(&k, false).is_empty());
        assert!(!keycode_to_string(&k, true).is_empty());
    }
}

#[test]
fn unmapped_keys_fall_back_to_their_identifier() {
    assert_eq!(keycode_to_string(&Key::F13, false), "F13");
    assert_eq!(keycode_to_string(&Key::F20, true), "F20");
    assert_eq!(keycode_to_string(&Key::NumpadEquals, false), "NumpadEquals");
    assert_eq!(keycode_to_string(&Key::NumpadDecimal, false), "NumpadDecimal");
}

#[test]
fn command_and_option_aliases_use_meta_and_alt_glyphs() {
    assert_eq!(keycode_to_string(&Key::Command, false), "⌘");
    assert_eq!(keycode_to_string(&Key::RCommand, false), "⌘");
    assert_eq!(keycode_to_string(&Key::LOption, false), "⌥");
    assert_eq!(keycode_to_string(&Key::ROption, true), "⌥");
}

#[test]
fn mapper_gives_same_output_twice() {
    for k in all_keys() {
        assert_eq!(keycode_to_string(&k, false), keycode_to_string(&k, false));
        assert_eq!(keycode_to_string(&k, true), keycode_to_string(&k, true));
    }
}

#[test]
fn modifier_glyphs() {
    assert_eq!(keycode_to_string(&Key::LAlt, false), "⌥");
    assert_eq!(keycode_to_string(&Key::RAlt, false), "⌥");
    assert_eq!(keycode_to_string(&Key::LShift, false), "⇧");
    assert_eq!(keycode_to_string(&Key::LControl, false), "⌃");
    assert_eq!(keycode_to_string(&Key::RControl, true), "⌃");
    assert_eq!(keycode_to_string(&Key::LMeta, false), "⌘");
    assert_eq!(keycode_to_string(&Key::RMeta, false), "⌘");
    assert_eq!(keycode_to_string(&Key::CapsLock, false), "⇪");
}

#[test]
fn function_navigation_and_control_glyphs() {
    assert_eq!(keycode_to_string(&Key::F1, false), "F1");
    assert_eq!(keycode_to_string(&Key::F12, true), "F12");
    assert_eq!(keycode_to_string(&Key::Up, false), "↑");
    assert_eq!(keycode_to_string(&Key::Down, false), "↓");
    assert_eq!(keycode_to_string(&Key::Left, false), "←");
    assert_eq!(keycode_to_string(&Key::Right, false), "→");
    assert_eq!(keycode_to_string(&Key::Home, false), "Home");
    assert_eq!(keycode_to_string(&Key::End, false), "End");
    assert_eq!(keycode_to_string(&Key::PageUp, false), "PgUp");
    assert_eq!(keycode_to_string(&Key::PageDown, false), "PgDn");
    assert_eq!(keycode_to_string(&Key::Space, false), "Space");
    assert_eq!(keycode_to_string(&Key::Tab, false), "Tab");
    assert_eq!(keycode_to_string(&Key::Enter, false), "Enter");
    assert_eq!(keycode_to_string(&Key::Escape, false), "Esc");
    assert_eq!(keycode_to_string(&Key::Backspace, false), "⌫");
    assert_eq!(keycode_to_string(&Key::Delete, false), "Del");
    assert_eq!(keycode_to_string(&Key::Insert, false), "Ins");
}

#[test]
fn digits_punctuation_and_numpad_are_uncased() {
    assert_eq!(keycode_to_string(&Key::Key0, true), "0");
    assert_eq!(keycode_to_string(&Key::Key9, false), "9");
    assert_eq!(keycode_to_string(&Key::Minus, true), "-");
    assert_eq!(keycode_to_string(&Key::Equal, false), "=");
    assert_eq!(keycode_to_string(&Key::LeftBracket, false), "[");
    assert_eq!(keycode_to_string(&Key::RightBracket, false), "]");
    assert_eq!(keycode_to_string(&Key::BackSlash, false), "\\");
    assert_eq!(keycode_to_string(&Key::Semicolon, false), ";");
    assert_eq!(keycode_to_string(&Key::Apostrophe, false), "'");
    assert_eq!(keycode_to_string(&Key::Comma, false), ",");
    assert_eq!(keycode_to_string(&Key::Dot, false), ".");
    assert_eq!(keycode_to_string(&Key::Slash, true), "/");
    assert_eq!(keycode_to_string(&Key::Grave, false), "`");
    assert_eq!(keycode_to_string(&Key::Numpad0, false), "Num0");
    assert_eq!(keycode_to_string(&Key::Numpad9, true), "Num9");
    assert_eq!(keycode_to_string(&Key::NumpadSubtract, false), "Num-");
    assert_eq!(keycode_to_string(&Key::NumpadAdd, false), "Num+");
    assert_eq!(keycode_to_string(&Key::NumpadMultiply, false), "Num*");
    assert_eq!(keycode_to_string(&Key::NumpadDivide, false), "Num/");
    assert_eq!(keycode_to_string(&Key::NumpadEnter, false), "NumEnter");
}

#[test]
fn identifier_is_variant_name() {
    assert_eq!(Key::A.identifier(), "A");
    assert_eq!(Key::Key5.identifier(), "Key5");
    assert_eq!(Key::NumpadDecimal.identifier(), "NumpadDecimal");
    assert_eq!(Key::Command.identifier(), "Command");
}

#[test]
fn press_and_release_follow_set_difference() {
    let mut t = KeyTracker::new();
    t.tick(set_of(&[Key::A, Key::B]));
    let ev = t.tick(set_of(&[Key::B, Key::C]));
    assert_eq!(codes(&ev, EventKind::Press), vec![Key::C]);
    assert_eq!(codes(&ev, EventKind::Release), vec![Key::A]);
    assert_eq!(ev.len(), 2);
}

#[test]
fn presses_come_before_releases() {
    let mut t = KeyTracker::new();
    t.tick(set_of(&[Key::X]));
    let ev = t.tick(set_of(&[Key::Y]));
    assert_eq!(ev.len(), 2);
    assert_eq!(ev[0].kind, EventKind::Press);
    assert_eq!(ev[0].glyph, "y");
    assert_eq!(ev[1].kind, EventKind::Release);
    assert_eq!(ev[1].glyph, "x");
}

#[test]
fn unchanged_keys_emit_nothing() {
    let mut t = KeyTracker::new();
    t.tick(set_of(&[Key::A, Key::LShift]));
    let ev = t.tick(set_of(&[Key::LShift, Key::A]));
    assert!(ev.is_empty());
    let ev = t.tick(set_of(&[]));
    assert_eq!(ev.len(), 2);
    let ev = t.tick(set_of(&[]));
    assert!(ev.is_empty());
}

#[test]
fn shift_then_letter_scenario() {
    let mut t = KeyTracker::new();
    let ev = t.tick(set_of(&[]));
    assert!(ev.is_empty());
    let ev = t.tick(set_of(&[Key::LShift, Key::A]));
    assert_eq!(ev.len(), 2);
    assert!(ev.iter().all(|e| e.kind == EventKind::Press));
    assert_eq!(glyphs(&ev, EventKind::Press), vec!["A".to_string(), "⇧".to_string()]);
    let ev = t.tick(set_of(&[Key::LShift]));
    assert_eq!(ev.len(), 1);
    assert_eq!(ev[0].kind, EventKind::Release);
    assert_eq!(ev[0].code, Key::A);
    assert_eq!(ev[0].glyph, "A");
}

#[test]
fn caps_lock_held_then_released_scenario() {
    let mut t = KeyTracker::new();
    let ev = t.tick(set_of(&[Key::CapsLock]));
    assert_eq!(ev.len(), 1);
    assert_eq!(ev[0].glyph, "⇪");
    assert!(t.caps_lock_on());
    let ev = t.tick(set_of(&[Key::CapsLock]));
    assert!(ev.is_empty());
    assert!(t.caps_lock_on());
    let ev = t.tick(set_of(&[]));
    assert_eq!(ev.len(), 1);
    assert_eq!(ev[0].kind, EventKind::Release);
    assert!(t.caps_lock_on());
}

#[test]
fn caps_lock_toggles_off_on_second_press() {
    let mut t = KeyTracker::new();
    t.tick(set_of(&[Key::CapsLock]));
    t.tick(set_of(&[]));
    t.tick(set_of(&[Key::CapsLock]));
    assert!(!t.caps_lock_on());
    let ev = t.tick(set_of(&[Key::CapsLock, Key::B]));
    assert_eq!(glyphs(&ev, EventKind::Press), vec!["b".to_string()]);
}

#[test]
fn release_uses_current_case() {
    let mut t = KeyTracker::new();
    t.tick(set_of(&[Key::A]));
    let ev = t.tick(set_of(&[Key::RShift]));
    assert_eq!(glyphs(&ev, EventKind::Release), vec!["A".to_string()]);
}

#[test]
fn key_set_from_keys_drops_duplicates() {
    let s = KeySet::from_keys(&vec![Key::A, Key::B, Key::A, Key::B, Key::A]);
    assert_eq!(s.len(), 2);
    assert!(s.contains(&Key::A));
    assert!(s.contains(&Key::B));
    assert!(!s.contains(&Key::C));
    assert_eq!(s.get(0), Key::A);
    assert_eq!(s.get(1), Key::B);
}

#[test]
fn key_set_insert_keeps_place() {
    let mut s = KeySet::new();
    assert_eq!(s.len(), 0);
    s.insert(Key::Tab);
    s.insert(Key::Space);
    s.insert(Key::Tab);
    assert_eq!(s.len(), 2);
    assert_eq!(s.get(0), Key::Tab);
    assert_eq!(s.get(1), Key::Space);
}

#[test]
fn event_kind_names() {
    assert_eq!(EventKind::Press.as_str(), "press");
    assert_eq!(EventKind::Release.as_str(), "release");
}
