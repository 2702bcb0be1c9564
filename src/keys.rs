use vstd::prelude::*;

verus! {
/// A physical key, named after its position on a US keyboard.
///
/// The variants follow the key codes that the operating system's global
/// input state reports; a key's identifier is its variant name.
#[derive(Clone, Copy, Debug, PartialEq, Eq, Structural, Hash)]
pub enum Key {
    Key0,
    Key1,
    Key2,
    Key3,
    Key4,
    Key5,
    Key6,
    Key7,
    Key8,
    Key9,
    A,
    B,
    C,
    D,
    E,
    F,
    G,
    H,
    I,
    J,
    K,
    L,
    M,
    N,
    O,
    P,
    Q,
    R,
    S,
    T,
    U,
    V,
    W,
    X,
    Y,
    Z,
    F1,
    F2,
    F3,
    F4,
    F5,
    F6,
    F7,
    F8,
    F9,
    F10,
    F11,
    F12,
    F13,
    F14,
    F15,
    F16,
    F17,
    F18,
    F19,
    F20,
    Escape,
    Space,
    LControl,
    RControl,
    LShift,
    RShift,
    LAlt,
    RAlt,
    Command,
    RCommand,
    LOption,
    ROption,
    LMeta,
    RMeta,
    Enter,
    Up,
    Down,
    Left,
    Right,
    Backspace,
    CapsLock,
    Tab,
    Home,
    End,
    PageUp,
    PageDown,
    Insert,
    Delete,
    Numpad0,
    Numpad1,
    Numpad2,
    Numpad3,
    Numpad4,
    Numpad5,
    Numpad6,
    Numpad7,
    Numpad8,
    Numpad9,
    NumpadSubtract,
    NumpadAdd,
    NumpadDivide,
    NumpadMultiply,
    NumpadEquals,
    NumpadEnter,
    NumpadDecimal,
    Grave,
    Minus,
    Equal,
    LeftBracket,
    RightBracket,
    BackSlash,
    Semicolon,
    Apostrophe,
    Comma,
    Dot,
    Slash,
}

/// The identifier text of a key: its variant name.
pub open spec fn key_identifier(k: Key) -> Seq<char> {
    match k {
        Key::Key0 => "Key0"@,
        Key::Key1 => "Key1"@,
        Key::Key2 => "Key2"@,
        Key::Key3 => "Key3"@,
        Key::Key4 => "Key4"@,
        Key::Key5 => "Key5"@,
        Key::Key6 => "Key6"@,
        Key::Key7 => "Key7"@,
        Key::Key8 => "Key8"@,
        Key::Key9 => "Key9"@,
        Key::A => "A"@,
        Key::B => "B"@,
        Key::C => "C"@,
        Key::D => "D"@,
        Key::E => "E"@,
        Key::F => "F"@,
        Key::G => "G"@,
        Key::H => "H"@,
        Key::I => "I"@,
        Key::J => "J"@,
        Key::K => "K"@,
        Key::L => "L"@,
        Key::M => "M"@,
        Key::N => "N"@,
        Key::O => "O"@,
        Key::P => "P"@,
        Key::Q => "Q"@,
        Key::R => "R"@,
        Key::S => "S"@,
        Key::T => "T"@,
        Key::U => "U"@,
        Key::V => "V"@,
        Key::W => "W"@,
        Key::X => "X"@,
        Key::Y => "Y"@,
        Key::Z => "Z"@,
        Key::F1 => "F1"@,
        Key::F2 => "F2"@,
        Key::F3 => "F3"@,
        Key::F4 => "F4"@,
        Key::F5 => "F5"@,
        Key::F6 => "F6"@,
        Key::F7 => "F7"@,
        Key::F8 => "F8"@,
        Key::F9 => "F9"@,
        Key::F10 => "F10"@,
        Key::F11 => "F11"@,
        Key::F12 => "F12"@,
        Key::F13 => "F13"@,
        Key::F14 => "F14"@,
        Key::F15 => "F15"@,
        Key::F16 => "F16"@,
        Key::F17 => "F17"@,
        Key::F18 => "F18"@,
        Key::F19 => "F19"@,
        Key::F20 => "F20"@,
        Key::Escape => "Escape"@,
        Key::Space => "Space"@,
        Key::LControl => "LControl"@,
        Key::RControl => "RControl"@,
        Key::LShift => "LShift"@,
        Key::RShift => "RShift"@,
        Key::LAlt => "LAlt"@,
        Key::RAlt => "RAlt"@,
        Key::Command => "Command"@,
        Key::RCommand => "RCommand"@,
        Key::LOption => "LOption"@,
        Key::ROption => "ROption"@,
        Key::LMeta => "LMeta"@,
        Key::RMeta => "RMeta"@,
        Key::Enter => "Enter"@,
        Key::Up => "Up"@,
        Key::Down => "Down"@,
        Key::Left => "Left"@,
        Key::Right => "Right"@,
        Key::Backspace => "Backspace"@,
        Key::CapsLock => "CapsLock"@,
        Key::Tab => "Tab"@,
        Key::Home => "Home"@,
        Key::End => "End"@,
        Key::PageUp => "PageUp"@,
        Key::PageDown => "PageDown"@,
        Key::Insert => "Insert"@,
        Key::Delete => "Delete"@,
        Key::Numpad0 => "Numpad0"@,
        Key::Numpad1 => "Numpad1"@,
        Key::Numpad2 => "Numpad2"@,
        Key::Numpad3 => "Numpad3"@,
        Key::Numpad4 => "Numpad4"@,
        Key::Numpad5 => "Numpad5"@,
        Key::Numpad6 => "Numpad6"@,
        Key::Numpad7 => "Numpad7"@,
        Key::Numpad8 => "Numpad8"@,
        Key::Numpad9 => "Numpad9"@,
        Key::NumpadSubtract => "NumpadSubtract"@,
        Key::NumpadAdd => "NumpadAdd"@,
        Key::NumpadDivide => "NumpadDivide"@,
        Key::NumpadMultiply => "NumpadMultiply"@,
        Key::NumpadEquals => "NumpadEquals"@,
        Key::NumpadEnter => "NumpadEnter"@,
        Key::NumpadDecimal => "NumpadDecimal"@,
        Key::Grave => "Grave"@,
        Key::Minus => "Minus"@,
        Key::Equal => "Equal"@,
        Key::LeftBracket => "LeftBracket"@,
        Key::RightBracket => "RightBracket"@,
        Key::BackSlash => "BackSlash"@,
        Key::Semicolon => "Semicolon"@,
        Key::Apostrophe => "Apostrophe"@,
        Key::Comma => "Comma"@,
        Key::Dot => "Dot"@,
        Key::Slash => "Slash"@,
    }
}

impl Key {
    /// The identifier text of this key.
    pub fn identifier(&self) -> (r: String)
        ensures
            r@ == key_identifier(*self),
    {
        match self {
            Key::Key0 => "Key0".to_string(),
            Key::Key1 => "Key1".to_string(),
            Key::Key2 => "Key2".to_string(),
            Key::Key3 => "Key3".to_string(),
            Key::Key4 => "Key4".to_string(),
            Key::Key5 => "Key5".to_string(),
            Key::Key6 => "Key6".to_string(),
            Key::Key7 => "Key7".to_string(),
            Key::Key8 => "Key8".to_string(),
            Key::Key9 => "Key9".to_string(),
            Key::A => "A".to_string(),
            Key::B => "B".to_string(),
            Key::C => "C".to_string(),
            Key::D => "D".to_string(),
            Key::E => "E".to_string(),
            Key::F => "F".to_string(),
            Key::G => "G".to_string(),
            Key::H => "H".to_string(),
            Key::I => "I".to_string(),
            Key::J => "J".to_string(),
            Key::K => "K".to_string(),
            Key::L => "L".to_string(),
            Key::M => "M".to_string(),
            Key::N => "N".to_string(),
            Key::O => "O".to_string(),
            Key::P => "P".to_string(),
            Key::Q => "Q".to_string(),
            Key::R => "R".to_string(),
            Key::S => "S".to_string(),
            Key::T => "T".to_string(),
            Key::U => "U".to_string(),
            Key::V => "V".to_string(),
            Key::W => "W".to_string(),
            Key::X => "X".to_string(),
            Key::Y => "Y".to_string(),
            Key::Z => "Z".to_string(),
            Key::F1 => "F1".to_string(),
            Key::F2 => "F2".to_string(),
            Key::F3 => "F3".to_string(),
            Key::F4 => "F4".to_string(),
            Key::F5 => "F5".to_string(),
            Key::F6 => "F6".to_string(),
            Key::F7 => "F7".to_string(),
            Key::F8 => "F8".to_string(),
            Key::F9 => "F9".to_string(),
            Key::F10 => "F10".to_string(),
            Key::F11 => "F11".to_string(),
            Key::F12 => "F12".to_string(),
            Key::F13 => "F13".to_string(),
            Key::F14 => "F14".to_string(),
            Key::F15 => "F15".to_string(),
            Key::F16 => "F16".to_string(),
            Key::F17 => "F17".to_string(),
            Key::F18 => "F18".to_string(),
            Key::F19 => "F19".to_string(),
            Key::F20 => "F20".to_string(),
            Key::Escape => "Escape".to_string(),
            Key::Space => "Space".to_string(),
            Key::LControl => "LControl".to_string(),
            Key::RControl => "RControl".to_string(),
            Key::LShift => "LShift".to_string(),
            Key::RShift => "RShift".to_string(),
            Key::LAlt => "LAlt".to_string(),
            Key::RAlt => "RAlt".to_string(),
            Key::Command => "Command".to_string(),
            Key::RCommand => "RCommand".to_string(),
            Key::LOption => "LOption".to_string(),
            Key::ROption => "ROption".to_string(),
            Key::LMeta => "LMeta".to_string(),
            Key::RMeta => "RMeta".to_string(),
            Key::Enter => "Enter".to_string(),
            Key::Up => "Up".to_string(),
            Key::Down => "Down".to_string(),
            Key::Left => "Left".to_string(),
            Key::Right => "Right".to_string(),
            Key::Backspace => "Backspace".to_string(),
            Key::CapsLock => "CapsLock".to_string(),
            Key::Tab => "Tab".to_string(),
            Key::Home => "Home".to_string(),
            Key::End => "End".to_string(),
            Key::PageUp => "PageUp".to_string(),
            Key::PageDown => "PageDown".to_string(),
            Key::Insert => "Insert".to_string(),
            Key::Delete => "Delete".to_string(),
            Key::Numpad0 => "Numpad0".to_string(),
            Key::Numpad1 => "Numpad1".to_string(),
            Key::Numpad2 => "Numpad2".to_string(),
            Key::Numpad3 => "Numpad3".to_string(),
            Key::Numpad4 => "Numpad4".to_string(),
            Key::Numpad5 => "Numpad5".to_string(),
            Key::Numpad6 => "Numpad6".to_string(),
            Key::Numpad7 => "Numpad7".to_string(),
            Key::Numpad8 => "Numpad8".to_string(),
            Key::Numpad9 => "Numpad9".to_string(),
            Key::NumpadSubtract => "NumpadSubtract".to_string(),
            Key::NumpadAdd => "NumpadAdd".to_string(),
            Key::NumpadDivide => "NumpadDivide".to_string(),
            Key::NumpadMultiply => "NumpadMultiply".to_string(),
            Key::NumpadEquals => "NumpadEquals".to_string(),
            Key::NumpadEnter => "NumpadEnter".to_string(),
            Key::NumpadDecimal => "NumpadDecimal".to_string(),
            Key::Grave => "Grave".to_string(),
            Key::Minus => "Minus".to_string(),
            Key::Equal => "Equal".to_string(),
            Key::LeftBracket => "LeftBracket".to_string(),
            Key::RightBracket => "RightBracket".to_string(),
            Key::BackSlash => "BackSlash".to_string(),
            Key::Semicolon => "Semicolon".to_string(),
            Key::Apostrophe => "Apostrophe".to_string(),
            Key::Comma => "Comma".to_string(),
            Key::Dot => "Dot".to_string(),
            Key::Slash => "Slash".to_string(),
        }
    }
}

/// Every identifier is non-empty.
pub proof fn lemma_identifier_nonempty(k: Key)
    ensures
        key_identifier(k).len() > 0,
{
    reveal_strlit("Key0");
    reveal_strlit("Key1");
    reveal_strlit("Key2");
    reveal_strlit("Key3");
    reveal_strlit("Key4");
    reveal_strlit("Key5");
    reveal_strlit("Key6");
    reveal_strlit("Key7");
    reveal_strlit("Key8");
    reveal_strlit("Key9");
    reveal_strlit("A");
    reveal_strlit("B");
    reveal_strlit("C");
    reveal_strlit("D");
    reveal_strlit("E");
    reveal_strlit("F");
    reveal_strlit("G");
    reveal_strlit("H");
    reveal_strlit("I");
    reveal_strlit("J");
    reveal_strlit("K");
    reveal_strlit("L");
    reveal_strlit("M");
    reveal_strlit("N");
    reveal_strlit("O");
    reveal_strlit("P");
    reveal_strlit("Q");
    reveal_strlit("R");
    reveal_strlit("S");
    reveal_strlit("T");
    reveal_strlit("U");
    reveal_strlit("V");
    reveal_strlit("W");
    reveal_strlit("X");
    reveal_strlit("Y");
    reveal_strlit("Z");
    reveal_strlit("F1");
    reveal_strlit("F2");
    reveal_strlit("F3");
    reveal_strlit("F4");
    reveal_strlit("F5");
    reveal_strlit("F6");
    reveal_strlit("F7");
    reveal_strlit("F8");
    reveal_strlit("F9");
    reveal_strlit("F10");
    reveal_strlit("F11");
    reveal_strlit("F12");
    reveal_strlit("F13");
    reveal_strlit("F14");
    reveal_strlit("F15");
    reveal_strlit("F16");
    reveal_strlit("F17");
    reveal_strlit("F18");
    reveal_strlit("F19");
    reveal_strlit("F20");
    reveal_strlit("Escape");
    reveal_strlit("Space");
    reveal_strlit("LControl");
    reveal_strlit("RControl");
    reveal_strlit("LShift");
    reveal_strlit("RShift");
    reveal_strlit("LAlt");
    reveal_strlit("RAlt");
    reveal_strlit("Command");
    reveal_strlit("RCommand");
    reveal_strlit("LOption");
    reveal_strlit("ROption");
    reveal_strlit("LMeta");
    reveal_strlit("RMeta");
    reveal_strlit("Enter");
    reveal_strlit("Up");
    reveal_strlit("Down");
    reveal_strlit("Left");
    reveal_strlit("Right");
    reveal_strlit("Backspace");
    reveal_strlit("CapsLock");
    reveal_strlit("Tab");
    reveal_strlit("Home");
    reveal_strlit("End");
    reveal_strlit("PageUp");
    reveal_strlit("PageDown");
    reveal_strlit("Insert");
    reveal_strlit("Delete");
    reveal_strlit("Numpad0");
    reveal_strlit("Numpad1");
    reveal_strlit("Numpad2");
    reveal_strlit("Numpad3");
    reveal_strlit("Numpad4");
    reveal_strlit("Numpad5");
    reveal_strlit("Numpad6");
    reveal_strlit("Numpad7");
    reveal_strlit("Numpad8");
    reveal_strlit("Numpad9");
    reveal_strlit("NumpadSubtract");
    reveal_strlit("NumpadAdd");
    reveal_strlit("NumpadDivide");
    reveal_strlit("NumpadMultiply");
    reveal_strlit("NumpadEquals");
    reveal_strlit("NumpadEnter");
    reveal_strlit("NumpadDecimal");
    reveal_strlit("Grave");
    reveal_strlit("Minus");
    reveal_strlit("Equal");
    reveal_strlit("LeftBracket");
    reveal_strlit("RightBracket");
    reveal_strlit("BackSlash");
    reveal_strlit("Semicolon");
    reveal_strlit("Apostrophe");
    reveal_strlit("Comma");
    reveal_strlit("Dot");
    reveal_strlit("Slash");
}

} // verus!
