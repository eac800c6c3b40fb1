//! The physical keys of a keyboard, named by position.

use vstd::prelude::*;

verus! {

/// Physical location of a key on the keyboard, wherever the key's legend
/// says. `KeyA` is the key right of Caps Lock, which an AZERTY keyboard
/// labels Q.
///
/// The set is closed: every scancode table translates into it and out of
/// it, and two keys are the same exactly when they are the same variant.
#[derive(Debug, Copy, Clone, PartialEq, Eq, Hash, Structural)]
pub enum Key {
    // Writing system keys.
    /// `` `~ `` on a US keyboard; the hankaku/zenkaku key on a Japanese one.
    Backquote,
    /// `\|` on a US keyboard; `#~` on a UK one.
    Backslash,
    /// `[{` on a US keyboard.
    BracketLeft,
    /// `]}` on a US keyboard.
    BracketRight,
    /// `,<` on a US keyboard.
    Comma,
    /// `0)` on a US keyboard.
    Digit0,
    /// `1!` on a US keyboard.
    Digit1,
    /// `2@` on a US keyboard.
    Digit2,
    /// `3#` on a US keyboard.
    Digit3,
    /// `4$` on a US keyboard.
    Digit4,
    /// `5%` on a US keyboard.
    Digit5,
    /// `6^` on a US keyboard.
    Digit6,
    /// `7&` on a US keyboard.
    Digit7,
    /// `8*` on a US keyboard.
    Digit8,
    /// `9(` on a US keyboard.
    Digit9,
    /// `=+` on a US keyboard.
    Equal,
    /// Between left Shift and `Z`; `\|` on a UK keyboard.
    IntlBackslash,
    /// Between `/` and right Shift; ro on a Japanese keyboard.
    IntlRo,
    /// Between `=` and Backspace; yen on a Japanese keyboard.
    IntlYen,
    /// `a` on a US keyboard; `q` on an AZERTY one.
    KeyA,
    /// `b` on a US keyboard.
    KeyB,
    /// `c` on a US keyboard.
    KeyC,
    /// `d` on a US keyboard.
    KeyD,
    /// `e` on a US keyboard.
    KeyE,
    /// `f` on a US keyboard.
    KeyF,
    /// `g` on a US keyboard.
    KeyG,
    /// `h` on a US keyboard.
    KeyH,
    /// `i` on a US keyboard.
    KeyI,
    /// `j` on a US keyboard.
    KeyJ,
    /// `k` on a US keyboard.
    KeyK,
    /// `l` on a US keyboard.
    KeyL,
    /// `m` on a US keyboard.
    KeyM,
    /// `n` on a US keyboard.
    KeyN,
    /// `o` on a US keyboard.
    KeyO,
    /// `p` on a US keyboard.
    KeyP,
    /// `q` on a US keyboard; `a` on an AZERTY one.
    KeyQ,
    /// `r` on a US keyboard.
    KeyR,
    /// `s` on a US keyboard.
    KeyS,
    /// `t` on a US keyboard.
    KeyT,
    /// `u` on a US keyboard.
    KeyU,
    /// `v` on a US keyboard.
    KeyV,
    /// `w` on a US keyboard; `z` on an AZERTY one.
    KeyW,
    /// `x` on a US keyboard.
    KeyX,
    /// `y` on a US keyboard; `z` on a QWERTZ one.
    KeyY,
    /// `z` on a US keyboard; `w` on an AZERTY one, `y` on a QWERTZ one.
    KeyZ,
    /// `-_` on a US keyboard.
    Minus,
    /// `.>` on a US keyboard.
    Period,
    /// `'"` on a US keyboard.
    Quote,
    /// `;:` on a US keyboard.
    Semicolon,
    /// `/?` on a US keyboard.
    Slash,

    // Modifier keys, told apart by side.
    /// Alt, or Option, left of the space bar.
    AltLeft,
    /// Alt, or Option, right of the space bar; AltGr on many layouts.
    AltRight,
    /// The left Control key.
    ControlLeft,
    /// The right Control key.
    ControlRight,
    /// The left Windows, Command or other logo key.
    LogoLeft,
    /// The right Windows, Command or other logo key.
    LogoRight,
    /// The left Shift key.
    ShiftLeft,
    /// The right Shift key.
    ShiftRight,

    // Functional keys of the main block.
    /// Backspace; labelled Delete on Apple keyboards.
    Backspace,
    /// Caps Lock.
    CapsLock,
    /// The menu key, between the right logo key and the right Control key.
    ContextMenu,
    /// Enter; labelled Return on Apple keyboards.
    Enter,
    /// The space bar.
    Space,
    /// Tab.
    Tab,

    // Keys of Japanese keyboards.
    /// Henkan.
    Convert,
    /// Katakana, hiragana, romaji.
    KanaMode,
    /// Muhenkan.
    NonConvert,

    // Arrow pad and control pad.
    /// Down arrow.
    ArrowDown,
    /// Left arrow.
    ArrowLeft,
    /// Right arrow.
    ArrowRight,
    /// Up arrow.
    ArrowUp,
    /// Forward delete. The key labelled Delete in the main block of an Apple
    /// keyboard is `Backspace`.
    Delete,
    /// End.
    End,
    /// Home.
    Home,
    /// Insert. Apple keyboards have none.
    Insert,
    /// Page Down.
    PageDown,
    /// Page Up.
    PageUp,

    // Numeric keypad.
    /// Num Lock; on Apple keyboards the keypad's Clear key.
    NumLock,
    /// `0` on the keypad; Ins with Num Lock off.
    Numpad0,
    /// `1` on the keypad; End with Num Lock off.
    Numpad1,
    /// `2` on the keypad; Down with Num Lock off.
    Numpad2,
    /// `3` on the keypad; PgDn with Num Lock off.
    Numpad3,
    /// `4` on the keypad; Left with Num Lock off.
    Numpad4,
    /// `5` on the keypad.
    Numpad5,
    /// `6` on the keypad; Right with Num Lock off.
    Numpad6,
    /// `7` on the keypad; Home with Num Lock off.
    Numpad7,
    /// `8` on the keypad; Up with Num Lock off.
    Numpad8,
    /// `9` on the keypad; PgUp with Num Lock off.
    Numpad9,
    /// `+` on the keypad.
    NumpadAdd,
    /// `.` on the keypad; Del with Num Lock off.
    NumpadDecimal,
    /// `/` on the keypad.
    NumpadDivide,
    /// Enter on the keypad.
    NumpadEnter,
    /// `*` on the keypad.
    NumpadMultiply,
    /// `-` on the keypad.
    NumpadSubtract,

    // Function row.
    /// Escape.
    Escape,
    /// F1.
    F1,
    /// F2.
    F2,
    /// F3.
    F3,
    /// F4.
    F4,
    /// F5.
    F5,
    /// F6.
    F6,
    /// F7.
    F7,
    /// F8.
    F8,
    /// F9.
    F9,
    /// F10.
    F10,
    /// F11.
    F11,
    /// F12.
    F12,
    /// F13.
    F13,
    /// F14.
    F14,
    /// F15.
    F15,
    /// F16.
    F16,
    /// F17.
    F17,
    /// F18.
    F18,
    /// F19.
    F19,
    /// F20.
    F20,
    /// F21.
    F21,
    /// F22.
    F22,
    /// F23.
    F23,
    /// F24.
    F24,
    /// Help. PC keyboards have none.
    Help,
    /// Pause, Break.
    Pause,
    /// Print Screen, SysRq.
    PrintScreen,
    /// Scroll Lock.
    ScrollLock,
}

impl Key {
    /// The key's symbolic name: the name of its variant.
    pub open spec fn spec_name(self) -> Seq<char> {
        match self {
            Key::Backquote => "Backquote"@,
            Key::Backslash => "Backslash"@,
            Key::BracketLeft => "BracketLeft"@,
            Key::BracketRight => "BracketRight"@,
            Key::Comma => "Comma"@,
            Key::Digit0 => "Digit0"@,
            Key::Digit1 => "Digit1"@,
            Key::Digit2 => "Digit2"@,
            Key::Digit3 => "Digit3"@,
            Key::Digit4 => "Digit4"@,
            Key::Digit5 => "Digit5"@,
            Key::Digit6 => "Digit6"@,
            Key::Digit7 => "Digit7"@,
            Key::Digit8 => "Digit8"@,
            Key::Digit9 => "Digit9"@,
            Key::Equal => "Equal"@,
            Key::IntlBackslash => "IntlBackslash"@,
            Key::IntlRo => "IntlRo"@,
            Key::IntlYen => "IntlYen"@,
            Key::KeyA => "KeyA"@,
            Key::KeyB => "KeyB"@,
            Key::KeyC => "KeyC"@,
            Key::KeyD => "KeyD"@,
            Key::KeyE => "KeyE"@,
            Key::KeyF => "KeyF"@,
            Key::KeyG => "KeyG"@,
            Key::KeyH => "KeyH"@,
            Key::KeyI => "KeyI"@,
            Key::KeyJ => "KeyJ"@,
            Key::KeyK => "KeyK"@,
            Key::KeyL => "KeyL"@,
            Key::KeyM => "KeyM"@,
            Key::KeyN => "KeyN"@,
            Key::KeyO => "KeyO"@,
            Key::KeyP => "KeyP"@,
            Key::KeyQ => "KeyQ"@,
            Key::KeyR => "KeyR"@,
            Key::KeyS => "KeyS"@,
            Key::KeyT => "KeyT"@,
            Key::KeyU => "KeyU"@,
            Key::KeyV => "KeyV"@,
            Key::KeyW => "KeyW"@,
            Key::KeyX => "KeyX"@,
            Key::KeyY => "KeyY"@,
            Key::KeyZ => "KeyZ"@,
            Key::Minus => "Minus"@,
            Key::Period => "Period"@,
            Key::Quote => "Quote"@,
            Key::Semicolon => "Semicolon"@,
            Key::Slash => "Slash"@,
            Key::AltLeft => "AltLeft"@,
            Key::AltRight => "AltRight"@,
            Key::ControlLeft => "ControlLeft"@,
            Key::ControlRight => "ControlRight"@,
            Key::LogoLeft => "LogoLeft"@,
            Key::LogoRight => "LogoRight"@,
            Key::ShiftLeft => "ShiftLeft"@,
            Key::ShiftRight => "ShiftRight"@,
            Key::Backspace => "Backspace"@,
            Key::CapsLock => "CapsLock"@,
            Key::ContextMenu => "ContextMenu"@,
            Key::Enter => "Enter"@,
            Key::Space => "Space"@,
            Key::Tab => "Tab"@,
            Key::Convert => "Convert"@,
            Key::KanaMode => "KanaMode"@,
            Key::NonConvert => "NonConvert"@,
            Key::ArrowDown => "ArrowDown"@,
            Key::ArrowLeft => "ArrowLeft"@,
            Key::ArrowRight => "ArrowRight"@,
            Key::ArrowUp => "ArrowUp"@,
            Key::Delete => "Delete"@,
            Key::End => "End"@,
            Key::Home => "Home"@,
            Key::Insert => "Insert"@,
            Key::PageDown => "PageDown"@,
            Key::PageUp => "PageUp"@,
            Key::NumLock => "NumLock"@,
            Key::Numpad0 => "Numpad0"@,
            Key::Numpad1 => "Numpad1"@,
            Key::Numpad2 => "Numpad2"@,
            Key::Numpad3 => "Numpad3"@,
            Key::Numpad4 => "Numpad4"@,
            Key::Numpad5 => "Numpad5"@,
            Key::Numpad6 => "Numpad6"@,
            Key::Numpad7 => "Numpad7"@,
            Key::Numpad8 => "Numpad8"@,
            Key::Numpad9 => "Numpad9"@,
            Key::NumpadAdd => "NumpadAdd"@,
            Key::NumpadDecimal => "NumpadDecimal"@,
            Key::NumpadDivide => "NumpadDivide"@,
            Key::NumpadEnter => "NumpadEnter"@,
            Key::NumpadMultiply => "NumpadMultiply"@,
            Key::NumpadSubtract => "NumpadSubtract"@,
            Key::Escape => "Escape"@,
            Key::F1 => "F1"@,
            Key::F2 => "F2"@,
            Key::F3 => "F3"@,
            Key::F4 => "F4"@,
            Key::F5 => "F5"@,
            Key::F6 => "F6"@,
            Key::F7 => "F7"@,
            Key::F8 => "F8"@,
            Key::F9 => "F9"@,
            Key::F10 => "F10"@,
            Key::F11 => "F11"@,
            Key::F12 => "F12"@,
            Key::F13 => "F13"@,
            Key::F14 => "F14"@,
            Key::F15 => "F15"@,
            Key::F16 => "F16"@,
            Key::F17 => "F17"@,
            Key::F18 => "F18"@,
            Key::F19 => "F19"@,
            Key::F20 => "F20"@,
            Key::F21 => "F21"@,
            Key::F22 => "F22"@,
            Key::F23 => "F23"@,
            Key::F24 => "F24"@,
            Key::Help => "Help"@,
            Key::Pause => "Pause"@,
            Key::PrintScreen => "PrintScreen"@,
            Key::ScrollLock => "ScrollLock"@,
        }
    }

    /// The key's symbolic name, the last resort of every display name.
    pub fn name(self) -> (r: &'static str)
        ensures
            r@ == self.spec_name(),
    {
        match self {
            Key::Backquote => "Backquote",
            Key::Backslash => "Backslash",
            Key::BracketLeft => "BracketLeft",
            Key::BracketRight => "BracketRight",
            Key::Comma => "Comma",
            Key::Digit0 => "Digit0",
            Key::Digit1 => "Digit1",
            Key::Digit2 => "Digit2",
            Key::Digit3 => "Digit3",
            Key::Digit4 => "Digit4",
            Key::Digit5 => "Digit5",
            Key::Digit6 => "Digit6",
            Key::Digit7 => "Digit7",
            Key::Digit8 => "Digit8",
            Key::Digit9 => "Digit9",
            Key::Equal => "Equal",
            Key::IntlBackslash => "IntlBackslash",
            Key::IntlRo => "IntlRo",
            Key::IntlYen => "IntlYen",
            Key::KeyA => "KeyA",
            Key::KeyB => "KeyB",
            Key::KeyC => "KeyC",
            Key::KeyD => "KeyD",
            Key::KeyE => "KeyE",
            Key::KeyF => "KeyF",
            Key::KeyG => "KeyG",
            Key::KeyH => "KeyH",
            Key::KeyI => "KeyI",
            Key::KeyJ => "KeyJ",
            Key::KeyK => "KeyK",
            Key::KeyL => "KeyL",
            Key::KeyM => "KeyM",
            Key::KeyN => "KeyN",
            Key::KeyO => "KeyO",
            Key::KeyP => "KeyP",
            Key::KeyQ => "KeyQ",
            Key::KeyR => "KeyR",
            Key::KeyS => "KeyS",
            Key::KeyT => "KeyT",
            Key::KeyU => "KeyU",
            Key::KeyV => "KeyV",
            Key::KeyW => "KeyW",
            Key::KeyX => "KeyX",
            Key::KeyY => "KeyY",
            Key::KeyZ => "KeyZ",
            Key::Minus => "Minus",
            Key::Period => "Period",
            Key::Quote => "Quote",
            Key::Semicolon => "Semicolon",
            Key::Slash => "Slash",
            Key::AltLeft => "AltLeft",
            Key::AltRight => "AltRight",
            Key::ControlLeft => "ControlLeft",
            Key::ControlRight => "ControlRight",
            Key::LogoLeft => "LogoLeft",
            Key::LogoRight => "LogoRight",
            Key::ShiftLeft => "ShiftLeft",
            Key::ShiftRight => "ShiftRight",
            Key::Backspace => "Backspace",
            Key::CapsLock => "CapsLock",
            Key::ContextMenu => "ContextMenu",
            Key::Enter => "Enter",
            Key::Space => "Space",
            Key::Tab => "Tab",
            Key::Convert => "Convert",
            Key::KanaMode => "KanaMode",
            Key::NonConvert => "NonConvert",
            Key::ArrowDown => "ArrowDown",
            Key::ArrowLeft => "ArrowLeft",
            Key::ArrowRight => "ArrowRight",
            Key::ArrowUp => "ArrowUp",
            Key::Delete => "Delete",
            Key::End => "End",
            Key::Home => "Home",
            Key::Insert => "Insert",
            Key::PageDown => "PageDown",
            Key::PageUp => "PageUp",
            Key::NumLock => "NumLock",
            Key::Numpad0 => "Numpad0",
            Key::Numpad1 => "Numpad1",
            Key::Numpad2 => "Numpad2",
            Key::Numpad3 => "Numpad3",
            Key::Numpad4 => "Numpad4",
            Key::Numpad5 => "Numpad5",
            Key::Numpad6 => "Numpad6",
            Key::Numpad7 => "Numpad7",
            Key::Numpad8 => "Numpad8",
            Key::Numpad9 => "Numpad9",
            Key::NumpadAdd => "NumpadAdd",
            Key::NumpadDecimal => "NumpadDecimal",
            Key::NumpadDivide => "NumpadDivide",
            Key::NumpadEnter => "NumpadEnter",
            Key::NumpadMultiply => "NumpadMultiply",
            Key::NumpadSubtract => "NumpadSubtract",
            Key::Escape => "Escape",
            Key::F1 => "F1",
            Key::F2 => "F2",
            Key::F3 => "F3",
            Key::F4 => "F4",
            Key::F5 => "F5",
            Key::F6 => "F6",
            Key::F7 => "F7",
            Key::F8 => "F8",
            Key::F9 => "F9",
            Key::F10 => "F10",
            Key::F11 => "F11",
            Key::F12 => "F12",
            Key::F13 => "F13",
            Key::F14 => "F14",
            Key::F15 => "F15",
            Key::F16 => "F16",
            Key::F17 => "F17",
            Key::F18 => "F18",
            Key::F19 => "F19",
            Key::F20 => "F20",
            Key::F21 => "F21",
            Key::F22 => "F22",
            Key::F23 => "F23",
            Key::F24 => "F24",
            Key::Help => "Help",
            Key::Pause => "Pause",
            Key::PrintScreen => "PrintScreen",
            Key::ScrollLock => "ScrollLock",
        }
    }
}

} // verus!
