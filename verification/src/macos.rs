//! Key names on macOS.

use vstd::prelude::*;
use crate::input::{NamedKey, PhysicalKey};
use crate::keys::Key;

verus! {

/// Name of the Alt modifier.
pub const ALT_STR: &'static str = "Option";

/// Name of the logo modifier.
pub const LOGO_STR: &'static str = "Cmd";

/// Order in which modifiers are written: `c` Ctrl, `s` Shift, `a` Alt,
/// `m` logo.
pub const MODIFIERS_ORDER: &'static str = "casm";

/// The name that macOS gives to a named key, where it has one of its own.
pub open spec fn spec_os_specific_key_name(key: NamedKey) -> Option<Seq<char>> {
    match key {
        NamedKey::Alt => Some("Option"@),
        NamedKey::AltGraph => Some("Right Option"@),
        NamedKey::ArrowDown => Some("Down"@),
        NamedKey::ArrowLeft => Some("Left"@),
        NamedKey::ArrowRight => Some("Right"@),
        NamedKey::ArrowUp => Some("Up"@),
        NamedKey::Backspace => Some("Delete"@),
        NamedKey::Delete => Some("Forward Delete"@),
        NamedKey::Enter => Some("Return"@),
        NamedKey::Escape => Some("Esc"@),
        NamedKey::Super => Some("Command"@),
        _ => None,
    }
}

/// The name that macOS gives to a named key, or `None` where the key's own
/// name serves.
pub fn os_specific_key_name(key: &NamedKey) -> (r: Option<&'static str>)
    ensures
        match r {
            Some(name) => spec_os_specific_key_name(*key) == Some(name@),
            None => spec_os_specific_key_name(*key) is None,
        },
{
    match key {
        NamedKey::Alt => Some("Option"),
        NamedKey::AltGraph => Some("Right Option"),
        NamedKey::ArrowDown => Some("Down"),
        NamedKey::ArrowLeft => Some("Left"),
        NamedKey::ArrowRight => Some("Right"),
        NamedKey::ArrowUp => Some("Up"),
        NamedKey::Backspace => Some("Delete"),
        NamedKey::Delete => Some("Forward Delete"),
        NamedKey::Enter => Some("Return"),
        NamedKey::Escape => Some("Esc"),
        NamedKey::Super => Some("Command"),
        _ => None,
    }
}

/// The short name that macOS shows for a key, for the keys that have one.
pub open spec fn spec_curated_key_name(key: Key) -> Option<Seq<char>> {
    match key {
        Key::Backquote => Some("`"@),
        Key::Backslash => Some("\\"@),
        Key::BracketLeft => Some("["@),
        Key::BracketRight => Some("]"@),
        Key::Comma => Some(","@),
        Key::Digit0 => Some("0"@),
        Key::Digit1 => Some("1"@),
        Key::Digit2 => Some("2"@),
        Key::Digit3 => Some("3"@),
        Key::Digit4 => Some("4"@),
        Key::Digit5 => Some("5"@),
        Key::Digit6 => Some("6"@),
        Key::Digit7 => Some("7"@),
        Key::Digit8 => Some("8"@),
        Key::Digit9 => Some("9"@),
        Key::Equal => Some("="@),
        Key::KeyA => Some("A"@),
        Key::KeyB => Some("B"@),
        Key::KeyC => Some("C"@),
        Key::KeyD => Some("D"@),
        Key::KeyE => Some("E"@),
        Key::KeyF => Some("F"@),
        Key::KeyG => Some("G"@),
        Key::KeyH => Some("H"@),
        Key::KeyI => Some("I"@),
        Key::KeyJ => Some("J"@),
        Key::KeyK => Some("K"@),
        Key::KeyL => Some("L"@),
        Key::KeyM => Some("M"@),
        Key::KeyN => Some("N"@),
        Key::KeyO => Some("O"@),
        Key::KeyP => Some("P"@),
        Key::KeyQ => Some("Q"@),
        Key::KeyR => Some("R"@),
        Key::KeyS => Some("S"@),
        Key::KeyT => Some("T"@),
        Key::KeyU => Some("U"@),
        Key::KeyV => Some("V"@),
        Key::KeyW => Some("W"@),
        Key::KeyX => Some("X"@),
        Key::KeyY => Some("Y"@),
        Key::KeyZ => Some("Z"@),
        Key::Minus => Some("-"@),
        Key::Period => Some("."@),
        Key::Quote => Some("'"@),
        Key::Semicolon => Some(";"@),
        Key::Slash => Some("/"@),
        Key::AltLeft => Some("Option"@),
        Key::AltRight => Some("Right Option"@),
        Key::ControlLeft => Some("Control"@),
        Key::ControlRight => Some("Right Control"@),
        Key::LogoLeft => Some("Command"@),
        Key::LogoRight => Some("Right Command"@),
        Key::ShiftLeft => Some("Shift"@),
        Key::ShiftRight => Some("Right Shift"@),
        Key::Backspace => Some("Delete"@),
        Key::Enter => Some("Return"@),
        Key::ArrowDown => Some("Down"@),
        Key::ArrowLeft => Some("Left"@),
        Key::ArrowRight => Some("Right"@),
        Key::ArrowUp => Some("Up"@),
        Key::Delete => Some("Forward Delete"@),
        Key::Escape => Some("Esc"@),
        _ => None,
    }
}

/// The short name that macOS shows for a key, or `None` for a key without one.
pub fn curated_key_name(key: Key) -> (r: Option<&'static str>)
    ensures
        match r {
            Some(name) => spec_curated_key_name(key) == Some(name@),
            None => spec_curated_key_name(key) is None,
        },
{
    match key {
        Key::Backquote => Some("`"),
        Key::Backslash => Some("\\"),
        Key::BracketLeft => Some("["),
        Key::BracketRight => Some("]"),
        Key::Comma => Some(","),
        Key::Digit0 => Some("0"),
        Key::Digit1 => Some("1"),
        Key::Digit2 => Some("2"),
        Key::Digit3 => Some("3"),
        Key::Digit4 => Some("4"),
        Key::Digit5 => Some("5"),
        Key::Digit6 => Some("6"),
        Key::Digit7 => Some("7"),
        Key::Digit8 => Some("8"),
        Key::Digit9 => Some("9"),
        Key::Equal => Some("="),
        Key::KeyA => Some("A"),
        Key::KeyB => Some("B"),
        Key::KeyC => Some("C"),
        Key::KeyD => Some("D"),
        Key::KeyE => Some("E"),
        Key::KeyF => Some("F"),
        Key::KeyG => Some("G"),
        Key::KeyH => Some("H"),
        Key::KeyI => Some("I"),
        Key::KeyJ => Some("J"),
        Key::KeyK => Some("K"),
        Key::KeyL => Some("L"),
        Key::KeyM => Some("M"),
        Key::KeyN => Some("N"),
        Key::KeyO => Some("O"),
        Key::KeyP => Some("P"),
        Key::KeyQ => Some("Q"),
        Key::KeyR => Some("R"),
        Key::KeyS => Some("S"),
        Key::KeyT => Some("T"),
        Key::KeyU => Some("U"),
        Key::KeyV => Some("V"),
        Key::KeyW => Some("W"),
        Key::KeyX => Some("X"),
        Key::KeyY => Some("Y"),
        Key::KeyZ => Some("Z"),
        Key::Minus => Some("-"),
        Key::Period => Some("."),
        Key::Quote => Some("'"),
        Key::Semicolon => Some(";"),
        Key::Slash => Some("/"),
        Key::AltLeft => Some("Option"),
        Key::AltRight => Some("Right Option"),
        Key::ControlLeft => Some("Control"),
        Key::ControlRight => Some("Right Control"),
        Key::LogoLeft => Some("Command"),
        Key::LogoRight => Some("Right Command"),
        Key::ShiftLeft => Some("Shift"),
        Key::ShiftRight => Some("Right Shift"),
        Key::Backspace => Some("Delete"),
        Key::Enter => Some("Return"),
        Key::ArrowDown => Some("Down"),
        Key::ArrowLeft => Some("Left"),
        Key::ArrowRight => Some("Right"),
        Key::ArrowUp => Some("Up"),
        Key::Delete => Some("Forward Delete"),
        Key::Escape => Some("Esc"),
        _ => None,
    }
}

/// The name of a physical key, where the key is known and has a short name.
pub open spec fn spec_try_physical_key_name(physical_key: PhysicalKey) -> Option<Seq<char>> {
    match physical_key {
        PhysicalKey::Code(key) => spec_curated_key_name(key),
        PhysicalKey::Unidentified(_) => None,
    }
}

/// The name of a physical key from the table of short names. A key without
/// an entry, and a bare native code, give `None`.
pub fn try_physical_key_name(physical_key: PhysicalKey) -> (r: Option<String>)
    ensures
        match r {
            Some(name) => spec_try_physical_key_name(physical_key) == Some(name@),
            None => spec_try_physical_key_name(physical_key) is None,
        },
{
    match physical_key {
        PhysicalKey::Code(key) => match curated_key_name(key) {
            Some(name) => Some(String::from_str(name)),
            None => None,
        },
        PhysicalKey::Unidentified(_) => None,
    }
}

/// The native code of a physical key. A bare native code gives `None`,
/// whatever platform it came from.
pub open spec fn spec_to_scancode(physical_key: PhysicalKey) -> Option<u32> {
    match physical_key {
        PhysicalKey::Code(key) => crate::scancode::macos::spec_key_to_sc(key),
        PhysicalKey::Unidentified(_) => None,
    }
}

/// The native code of a physical key.
pub fn to_scancode(physical_key: PhysicalKey) -> (r: Option<u32>)
    ensures
        r == spec_to_scancode(physical_key),
{
    match physical_key {
        PhysicalKey::Code(key) => crate::scancode::macos::key_to_sc(key),
        PhysicalKey::Unidentified(_) => None,
    }
}

} // verus!
