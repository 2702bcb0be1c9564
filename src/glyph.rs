use vstd::prelude::*;

use crate::keys::{Key, key_identifier, lemma_identifier_nonempty};

verus! {

/// The glyph of a key that has no entry of its own in the table: its
/// identifier, except that the platform aliases of Command and Option show
/// as the Meta and Alt glyphs.
pub open spec fn fallback_glyph(k: Key) -> Seq<char> {
    match k {
        Key::Command | Key::RCommand => "⌘"@,
        Key::LOption | Key::ROption => "⌥"@,
        _ => key_identifier(k),
    }
}

/// The glyph shown for key `k`; `uppercase` chooses the case of letters.
pub open spec fn glyph(k: Key, uppercase: bool) -> Seq<char> {
    match k {
        Key::LAlt | Key::RAlt => "⌥"@,
        Key::LShift | Key::RShift => "⇧"@,
        Key::LControl | Key::RControl => "⌃"@,
        Key::LMeta | Key::RMeta => "⌘"@,
        Key::CapsLock => "⇪"@,
        Key::F1 => "F1"@,
        Key::F2 => "F2"@,
        Key::F3 => "F3"@,
        Key::F4 => "F4"@,
        Key::F5 => "F5"@,
        Key::F6 => "F6"@,
        Key::F7 => "F7"@,
        Key::F8 => "F8"@,
        Key::F9 => "F9"@,
        Key::F10 => "F10"@,
        Key::F11 => "F11"@,
        Key::F12 => "F12"@,
        Key::Up => "↑"@,
        Key::Down => "↓"@,
        Key::Left => "←"@,
        Key::Right => "→"@,
        Key::Home => "Home"@,
        Key::End => "End"@,
        Key::PageUp => "PgUp"@,
        Key::PageDown => "PgDn"@,
        Key::Space => "Space"@,
        Key::Tab => "Tab"@,
        Key::Enter => "Enter"@,
        Key::Escape => "Esc"@,
        Key::Backspace => "⌫"@,
        Key::Delete => "Del"@,
        Key::Insert => "Ins"@,
        Key::Key0 => "0"@,
        Key::Key1 => "1"@,
        Key::Key2 => "2"@,
        Key::Key3 => "3"@,
        Key::Key4 => "4"@,
        Key::Key5 => "5"@,
        Key::Key6 => "6"@,
        Key::Key7 => "7"@,
        Key::Key8 => "8"@,
        Key::Key9 => "9"@,
        Key::Minus => "-"@,
        Key::Equal => "="@,
        Key::LeftBracket => "["@,
        Key::RightBracket => "]"@,
        Key::BackSlash => "\\"@,
        Key::Semicolon => ";"@,
        Key::Apostrophe => "'"@,
        Key::Comma => ","@,
        Key::Dot => "."@,
        Key::Slash => "/"@,
        Key::Grave => "`"@,
        Key::Numpad0 => "Num0"@,
        Key::Numpad1 => "Num1"@,
        Key::Numpad2 => "Num2"@,
        Key::Numpad3 => "Num3"@,
        Key::Numpad4 => "Num4"@,
        Key::Numpad5 => "Num5"@,
        Key::Numpad6 => "Num6"@,
        Key::Numpad7 => "Num7"@,
        Key::Numpad8 => "Num8"@,
        Key::Numpad9 => "Num9"@,
        Key::NumpadSubtract => "Num-"@,
        Key::NumpadAdd => "Num+"@,
        Key::NumpadMultiply => "Num*"@,
        Key::NumpadDivide => "Num/"@,
        Key::NumpadEnter => "NumEnter"@,
        Key::A => if uppercase { "A"@ } else { "a"@ },
        Key::B => if uppercase { "B"@ } else { "b"@ },
        Key::C => if uppercase { "C"@ } else { "c"@ },
        Key::D => if uppercase { "D"@ } else { "d"@ },
        Key::E => if uppercase { "E"@ } else { "e"@ },
        Key::F => if uppercase { "F"@ } else { "f"@ },
        Key::G => if uppercase { "G"@ } else { "g"@ },
        Key::H => if uppercase { "H"@ } else { "h"@ },
        Key::I => if uppercase { "I"@ } else { "i"@ },
        Key::J => if uppercase { "J"@ } else { "j"@ },
        Key::K => if uppercase { "K"@ } else { "k"@ },
        Key::L => if uppercase { "L"@ } else { "l"@ },
        Key::M => if uppercase { "M"@ } else { "m"@ },
        Key::N => if uppercase { "N"@ } else { "n"@ },
        Key::O => if uppercase { "O"@ } else { "o"@ },
        Key::P => if uppercase { "P"@ } else { "p"@ },
        Key::Q => if uppercase { "Q"@ } else { "q"@ },
        Key::R => if uppercase { "R"@ } else { "r"@ },
        Key::S => if uppercase { "S"@ } else { "s"@ },
        Key::T => if uppercase { "T"@ } else { "t"@ },
        Key::U => if uppercase { "U"@ } else { "u"@ },
        Key::V => if uppercase { "V"@ } else { "v"@ },
        Key::W => if uppercase { "W"@ } else { "w"@ },
        Key::X => if uppercase { "X"@ } else { "x"@ },
        Key::Y => if uppercase { "Y"@ } else { "y"@ },
        Key::Z => if uppercase { "Z"@ } else { "z"@ },
        _ => fallback_glyph(k),
    }
}

/// Maps a key to the glyph that is displayed for it.
pub fn keycode_to_string(key: &Key, uppercase: bool) -> (r: String)
    ensures
        r@ == glyph(*key, uppercase),
{
    match key {
        Key::LAlt | Key::RAlt => "⌥".to_string(),
        Key::LShift | Key::RShift => "⇧".to_string(),
        Key::LControl | Key::RControl => "⌃".to_string(),
        Key::LMeta | Key::RMeta => "⌘".to_string(),
        Key::CapsLock => "⇪".to_string(),
        Key::F1 => "F1".to_string(),
        Key::F2 => "F2".to_string(),
        Key::F3 => "F3".to_string(),
        Key::F4 => "F4".to_string(),
        Key::F5 => "F5".to_string(),
        Key::F6 => "F6".to_string(),
        Key::F7 => "F7".to_string(),
        Key::F8 => "F8".to_string(),
        Key::F9 => "F9".to_string(),
        Key::F10 => "F10".to_string(),
        Key::F11 => "F11".to_string(),
        Key::F12 => "F12".to_string(),
        Key::Up => "↑".to_string(),
        Key::Down => "↓".to_string(),
        Key::Left => "←".to_string(),
        Key::Right => "→".to_string(),
        Key::Home => "Home".to_string(),
        Key::End => "End".to_string(),
        Key::PageUp => "PgUp".to_string(),
        Key::PageDown => "PgDn".to_string(),
        Key::Space => "Space".to_string(),
        Key::Tab => "Tab".to_string(),
        Key::Enter => "Enter".to_string(),
        Key::Escape => "Esc".to_string(),
        Key::Backspace => "⌫".to_string(),
        Key::Delete => "Del".to_string(),
        Key::Insert => "Ins".to_string(),
        Key::Key0 => "0".to_string(),
        Key::Key1 => "1".to_string(),
        Key::Key2 => "2".to_string(),
        Key::Key3 => "3".to_string(),
        Key::Key4 => "4".to_string(),
        Key::Key5 => "5".to_string(),
        Key::Key6 => "6".to_string(),
        Key::Key7 => "7".to_string(),
        Key::Key8 => "8".to_string(),
        Key::Key9 => "9".to_string(),
        Key::Minus => "-".to_string(),
        Key::Equal => "=".to_string(),
        Key::LeftBracket => "[".to_string(),
        Key::RightBracket => "]".to_string(),
        Key::BackSlash => "\\".to_string(),
        Key::Semicolon => ";".to_string(),
        Key::Apostrophe => "'".to_string(),
        Key::Comma => ",".to_string(),
        Key::Dot => ".".to_string(),
        Key::Slash => "/".to_string(),
        Key::Grave => "`".to_string(),
        Key::Numpad0 => "Num0".to_string(),
        Key::Numpad1 => "Num1".to_string(),
        Key::Numpad2 => "Num2".to_string(),
        Key::Numpad3 => "Num3".to_string(),
        Key::Numpad4 => "Num4".to_string(),
        Key::Numpad5 => "Num5".to_string(),
        Key::Numpad6 => "Num6".to_string(),
        Key::Numpad7 => "Num7".to_string(),
        Key::Numpad8 => "Num8".to_string(),
        Key::Numpad9 => "Num9".to_string(),
        Key::NumpadSubtract => "Num-".to_string(),
        Key::NumpadAdd => "Num+".to_string(),
        Key::NumpadMultiply => "Num*".to_string(),
        Key::NumpadDivide => "Num/".to_string(),
        Key::NumpadEnter => "NumEnter".to_string(),
        Key::A => if uppercase { "A" } else { "a" }.to_string(),
        Key::B => if uppercase { "B" } else { "b" }.to_string(),
        Key::C => if uppercase { "C" } else { "c" }.to_string(),
        Key::D => if uppercase { "D" } else { "d" }.to_string(),
        Key::E => if uppercase { "E" } else { "e" }.to_string(),
        Key::F => if uppercase { "F" } else { "f" }.to_string(),
        Key::G => if uppercase { "G" } else { "g" }.to_string(),
        Key::H => if uppercase { "H" } else { "h" }.to_string(),
        Key::I => if uppercase { "I" } else { "i" }.to_string(),
        Key::J => if uppercase { "J" } else { "j" }.to_string(),
        Key::K => if uppercase { "K" } else { "k" }.to_string(),
        Key::L => if uppercase { "L" } else { "l" }.to_string(),
        Key::M => if uppercase { "M" } else { "m" }.to_string(),
        Key::N => if uppercase { "N" } else { "n" }.to_string(),
        Key::O => if uppercase { "O" } else { "o" }.to_string(),
        Key::P => if uppercase { "P" } else { "p" }.to_string(),
        Key::Q => if uppercase { "Q" } else { "q" }.to_string(),
        Key::R => if uppercase { "R" } else { "r" }.to_string(),
        Key::S => if uppercase { "S" } else { "s" }.to_string(),
        Key::T => if uppercase { "T" } else { "t" }.to_string(),
        Key::U => if uppercase { "U" } else { "u" }.to_string(),
        Key::V => if uppercase { "V" } else { "v" }.to_string(),
        Key::W => if uppercase { "W" } else { "w" }.to_string(),
        Key::X => if uppercase { "X" } else { "x" }.to_string(),
        Key::Y => if uppercase { "Y" } else { "y" }.to_string(),
        Key::Z => if uppercase { "Z" } else { "z" }.to_string(),
        _ => fallback_key_string(key),
    }
}

/// The glyph of a key that the table does not list.
fn fallback_key_string(key: &Key) -> (r: String)
    ensures
        r@ == fallback_glyph(*key),
{
    match key {
        Key::Command | Key::RCommand => "⌘".to_string(),
        Key::LOption | Key::ROption => "⌥".to_string(),
        _ => key.identifier(),
    }
}

/// Every key has a non-empty glyph, in either case, including the keys
/// that fall back to their identifier.
pub proof fn law_glyph_nonempty(k: Key, uppercase: bool)
    ensures
        glyph(k, uppercase).len() > 0,
{
    lemma_identifier_nonempty(k);
    reveal_strlit("'");
    reveal_strlit(",");
    reveal_strlit("-");
    reveal_strlit(".");
    reveal_strlit("/");
    reveal_strlit("0");
    reveal_strlit("1");
    reveal_strlit("2");
    reveal_strlit("3");
    reveal_strlit("4");
    reveal_strlit("5");
    reveal_strlit("6");
    reveal_strlit("7");
    reveal_strlit("8");
    reveal_strlit("9");
    reveal_strlit(";");
    reveal_strlit("=");
    reveal_strlit("A");
    reveal_strlit("B");
    reveal_strlit("C");
    reveal_strlit("D");
    reveal_strlit("Del");
    reveal_strlit("E");
    reveal_strlit("End");
    reveal_strlit("Enter");
    reveal_strlit("Esc");
    reveal_strlit("F");
    reveal_strlit("F1");
    reveal_strlit("F10");
    reveal_strlit("F11");
    reveal_strlit("F12");
    reveal_strlit("F2");
    reveal_strlit("F3");
    reveal_strlit("F4");
    reveal_strlit("F5");
    reveal_strlit("F6");
    reveal_strlit("F7");
    reveal_strlit("F8");
    reveal_strlit("F9");
    reveal_strlit("G");
    reveal_strlit("H");
    reveal_strlit("Home");
    reveal_strlit("I");
    reveal_strlit("Ins");
    reveal_strlit("J");
    reveal_strlit("K");
    reveal_strlit("L");
    reveal_strlit("M");
    reveal_strlit("N");
    reveal_strlit("Num*");
    reveal_strlit("Num+");
    reveal_strlit("Num-");
    reveal_strlit("Num/");
    reveal_strlit("Num0");
    reveal_strlit("Num1");
    reveal_strlit("Num2");
    reveal_strlit("Num3");
    reveal_strlit("Num4");
    reveal_strlit("Num5");
    reveal_strlit("Num6");
    reveal_strlit("Num7");
    reveal_strlit("Num8");
    reveal_strlit("Num9");
    reveal_strlit("NumEnter");
    reveal_strlit("O");
    reveal_strlit("P");
    reveal_strlit("PgDn");
    reveal_strlit("PgUp");
    reveal_strlit("Q");
    reveal_strlit("R");
    reveal_strlit("S");
    reveal_strlit("Space");
    reveal_strlit("T");
    reveal_strlit("Tab");
    reveal_strlit("U");
    reveal_strlit("V");
    reveal_strlit("W");
    reveal_strlit("X");
    reveal_strlit("Y");
    reveal_strlit("Z");
    reveal_strlit("[");
    reveal_strlit("\\");
    reveal_strlit("]");
    reveal_strlit("`");
    reveal_strlit("a");
    reveal_strlit("b");
    reveal_strlit("c");
    reveal_strlit("d");
    reveal_strlit("e");
    reveal_strlit("f");
    reveal_strlit("g");
    reveal_strlit("h");
    reveal_strlit("i");
    reveal_strlit("j");
    reveal_strlit("k");
    reveal_strlit("l");
    reveal_strlit("m");
    reveal_strlit("n");
    reveal_strlit("o");
    reveal_strlit("p");
    reveal_strlit("q");
    reveal_strlit("r");
    reveal_strlit("s");
    reveal_strlit("t");
    reveal_strlit("u");
    reveal_strlit("v");
    reveal_strlit("w");
    reveal_strlit("x");
    reveal_strlit("y");
    reveal_strlit("z");
    reveal_strlit("←");
    reveal_strlit("↑");
    reveal_strlit("→");
    reveal_strlit("↓");
    reveal_strlit("⇧");
    reveal_strlit("⇪");
    reveal_strlit("⌃");
    reveal_strlit("⌘");
    reveal_strlit("⌥");
    reveal_strlit("⌫");
}

/// The glyph table is a function of its inputs: the same key and case always
/// give the same glyph.
pub proof fn law_glyph_deterministic(k: Key, uppercase: bool, first: Seq<char>, second: Seq<char>)
    requires
        first == glyph(k, uppercase),
        second == glyph(k, uppercase),
    ensures
        first == second,
{
}

} // verus!
