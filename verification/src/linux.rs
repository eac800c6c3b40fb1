//! Key names on Linux. The name of a key depends on the active layout: the
//! display server's keymap gives the keysym of a keycode, and libxkbcommon
//! the keysym's name. Both are asked by the caller; what is decided here is
//! which keycode to ask for and what to make of the answers.

use vstd::prelude::*;
use crate::input::{NamedKey, NativeKeyCode, PhysicalKey};
use crate::text::{ascii_uppercase, spec_ascii_uppercase};

verus! {

/// Name of the Alt modifier.
pub const ALT_STR: &'static str = "Alt";

/// Name of the logo modifier.
pub const LOGO_STR: &'static str = "Super";

/// Order in which modifiers are written: `c` Ctrl, `s` Shift, `a` Alt,
/// `m` logo.
pub const MODIFIERS_ORDER: &'static str = "csam";

/// An X11 or Wayland keycode is the kernel's scancode plus this.
pub const KEYCODE_OFFSET: u32 = 8;

/// The scancode that stands for a key which the kernel could not identify.
pub const SC_UNKNOWN: u32 = 240;

/// The name that Linux desktops give to a named key, where it has one of
/// its own.
pub open spec fn spec_os_specific_key_name(key: NamedKey) -> Option<Seq<char>> {
    match key {
        NamedKey::AltGraph => Some("AltGr"@),
        NamedKey::ArrowDown => Some("Down"@),
        NamedKey::ArrowLeft => Some("Left"@),
        NamedKey::ArrowRight => Some("Right"@),
        NamedKey::ArrowUp => Some("Up"@),
        _ => None,
    }
}

/// The name that Linux desktops give to a named key, or `None` where the
/// key's own name serves.
pub fn os_specific_key_name(key: &NamedKey) -> (r: Option<&'static str>)
    ensures
        match r {
            Some(name) => spec_os_specific_key_name(*key) == Some(name@),
            None => spec_os_specific_key_name(*key) is None,
        },
{
    match key {
        NamedKey::AltGraph => Some("AltGr"),
        NamedKey::ArrowDown => Some("Down"),
        NamedKey::ArrowLeft => Some("Left"),
        NamedKey::ArrowRight => Some("Right"),
        NamedKey::ArrowUp => Some("Up"),
        _ => None,
    }
}

/// The scancode of a physical key: the table's code of a known key, the
/// code itself of a bare XKB code, `SC_UNKNOWN` of a key without any code.
/// A bare code of another platform has none.
pub open spec fn spec_to_scancode(physical_key: PhysicalKey) -> Option<u32> {
    match physical_key {
        PhysicalKey::Code(key) => crate::scancode::linux::spec_key_to_sc(key),
        PhysicalKey::Unidentified(NativeKeyCode::Unidentified) => Some(SC_UNKNOWN),
        PhysicalKey::Unidentified(NativeKeyCode::Xkb(raw)) => Some(raw),
        PhysicalKey::Unidentified(_) => None,
    }
}

/// The scancode of a physical key.
pub fn to_scancode(physical_key: PhysicalKey) -> (r: Option<u32>)
    ensures
        r == spec_to_scancode(physical_key),
{
    match physical_key {
        PhysicalKey::Code(key) => crate::scancode::linux::key_to_sc(key),
        PhysicalKey::Unidentified(NativeKeyCode::Unidentified) => Some(SC_UNKNOWN),
        PhysicalKey::Unidentified(NativeKeyCode::Xkb(raw)) => Some(raw),
        PhysicalKey::Unidentified(_) => None,
    }
}

/// The keycode under which a keymap holds the key with scancode `sc`.
pub fn keycode_for_scancode(sc: u16) -> (r: u32)
    ensures
        r == sc + KEYCODE_OFFSET,
{
    sc as u32 + KEYCODE_OFFSET
}

/// The keysym `KP_Insert`.
pub const KP_INSERT: u32 = 0xff9e;

/// The keysym `KP_End`.
pub const KP_END: u32 = 0xff9c;

/// The keysym `KP_Down`.
pub const KP_DOWN: u32 = 0xff99;

/// The keysym `KP_Next`.
pub const KP_NEXT: u32 = 0xff9b;

/// The keysym `KP_Left`.
pub const KP_LEFT: u32 = 0xff96;

/// The keysym `KP_Begin`.
pub const KP_BEGIN: u32 = 0xff9d;

/// The keysym `KP_Right`.
pub const KP_RIGHT: u32 = 0xff98;

/// The keysym `KP_Home`.
pub const KP_HOME: u32 = 0xff95;

/// The keysym `KP_Up`.
pub const KP_UP: u32 = 0xff97;

/// The keysym `KP_Prior`.
pub const KP_PRIOR: u32 = 0xff9a;

/// The keysym `KP_Add`.
pub const KP_ADD: u32 = 0xffab;

/// The keysym `KP_Decimal`.
pub const KP_DECIMAL: u32 = 0xffae;

/// The keysym `KP_Delete`.
pub const KP_DELETE: u32 = 0xff9f;

/// The keysym `KP_Divide`.
pub const KP_DIVIDE: u32 = 0xffaf;

/// The keysym `KP_Enter`.
pub const KP_ENTER: u32 = 0xff8d;

/// The keysym `KP_Equal`.
pub const KP_EQUAL: u32 = 0xffbd;

/// The keysym `KP_Multiply`.
pub const KP_MULTIPLY: u32 = 0xffaa;

/// The keysym `KP_Subtract`.
pub const KP_SUBTRACT: u32 = 0xffad;

/// The name shown for a keysym of the numeric keypad. A keymap reports
/// these keys by what they do with Num Lock off (`KP_Insert`, `KP_End`);
/// the name shown says which key it is.
pub open spec fn spec_numpad_keysym_name(keysym: u32) -> Option<Seq<char>> {
    match keysym {
        KP_INSERT => Some("Numpad0"@),
        KP_END => Some("Numpad1"@),
        KP_DOWN => Some("Numpad2"@),
        KP_NEXT => Some("Numpad3"@),
        KP_LEFT => Some("Numpad4"@),
        KP_BEGIN => Some("Numpad5"@),
        KP_RIGHT => Some("Numpad6"@),
        KP_HOME => Some("Numpad7"@),
        KP_UP => Some("Numpad8"@),
        KP_PRIOR => Some("Numpad9"@),
        KP_ADD => Some("NumpadAdd"@),
        KP_DECIMAL => Some("NumpadComma"@),
        KP_DELETE => Some("NumpadDecimal"@),
        KP_DIVIDE => Some("NumpadDivide"@),
        KP_ENTER => Some("NumpadEnter"@),
        KP_EQUAL => Some("NumpadEqual"@),
        KP_MULTIPLY => Some("NumpadMultiply"@),
        KP_SUBTRACT => Some("NumpadSubtract"@),
        _ => None,
    }
}

/// The name shown for a keysym of the numeric keypad, or `None` for any
/// other keysym.
pub fn numpad_keysym_name(keysym: u32) -> (r: Option<&'static str>)
    ensures
        match r {
            Some(name) => spec_numpad_keysym_name(keysym) == Some(name@),
            None => spec_numpad_keysym_name(keysym) is None,
        },
{
    match keysym {
        KP_INSERT => Some("Numpad0"),
        KP_END => Some("Numpad1"),
        KP_DOWN => Some("Numpad2"),
        KP_NEXT => Some("Numpad3"),
        KP_LEFT => Some("Numpad4"),
        KP_BEGIN => Some("Numpad5"),
        KP_RIGHT => Some("Numpad6"),
        KP_HOME => Some("Numpad7"),
        KP_UP => Some("Numpad8"),
        KP_PRIOR => Some("Numpad9"),
        KP_ADD => Some("NumpadAdd"),
        KP_DECIMAL => Some("NumpadComma"),
        KP_DELETE => Some("NumpadDecimal"),
        KP_DIVIDE => Some("NumpadDivide"),
        KP_ENTER => Some("NumpadEnter"),
        KP_EQUAL => Some("NumpadEqual"),
        KP_MULTIPLY => Some("NumpadMultiply"),
        KP_SUBTRACT => Some("NumpadSubtract"),
        _ => None,
    }
}

/// A keysym name as it is shown: a name of one character, such as `a`, in
/// ASCII upper case, any other name as it is.
pub open spec fn spec_shown_keysym_name(xkb_name: Seq<char>) -> Seq<char> {
    if xkb_name.len() == 1 {
        spec_ascii_uppercase(xkb_name)
    } else {
        xkb_name
    }
}

/// The name of the key with some scancode, given the keysym that the
/// keymap holds for the key and the name that libxkbcommon has for that
/// keysym.
pub open spec fn spec_scancode_name(keysym: u32, xkb_name: Seq<char>) -> Seq<char> {
    match spec_numpad_keysym_name(keysym) {
        Some(name) => name,
        None => spec_shown_keysym_name(xkb_name),
    }
}

/// The name of a key under the active layout. `keysym` is what the keymap
/// holds for the key, under `keycode_for_scancode` of its scancode, and
/// `xkb_name` the name that libxkbcommon has for that keysym; it is not
/// read for a keysym of the numeric keypad. A key of which the keymap
/// knows nothing has the keysym `NoSymbol`, and is called what libxkbcommon
/// calls that.
pub fn scancode_name(keysym: u32, xkb_name: String) -> (r: String)
    ensures
        r@ == spec_scancode_name(keysym, xkb_name@),
{
    match numpad_keysym_name(keysym) {
        Some(name) => String::from_str(name),
        None => {
            if xkb_name.as_str().unicode_len() == 1 {
                ascii_uppercase(xkb_name.as_str())
            } else {
                xkb_name
            }
        },
    }
}

/// The name of a physical key under the active layout, for a key that has a
/// scancode.
pub open spec fn spec_try_physical_key_name(
    physical_key: PhysicalKey,
    keysym: u32,
    xkb_name: Seq<char>,
) -> Option<Seq<char>> {
    match spec_to_scancode(physical_key) {
        Some(_) => Some(spec_scancode_name(keysym, xkb_name)),
        None => None,
    }
}

/// The name of a physical key under the active layout. `keysym` is what the
/// keymap holds for the key's keycode, that is for `keycode_for_scancode`
/// of the low 16 bits of `to_scancode(physical_key)`, and `xkb_name` the
/// name that libxkbcommon has for that keysym. A key without a scancode
/// gives `None`, and neither is read.
pub fn try_physical_key_name(
    physical_key: PhysicalKey,
    keysym: u32,
    xkb_name: String,
) -> (r: Option<String>)
    ensures
        match r {
            Some(name) => spec_try_physical_key_name(physical_key, keysym, xkb_name@) == Some(name@),
            None => spec_try_physical_key_name(physical_key, keysym, xkb_name@) is None,
        },
{
    match to_scancode(physical_key) {
        Some(_) => Some(scancode_name(keysym, xkb_name)),
        None => None,
    }
}

} // verus!
