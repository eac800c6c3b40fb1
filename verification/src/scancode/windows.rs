//! Scancodes of Windows: set 1 scancodes. An extended key carries the prefix
//! byte `0xE0` in the high byte, so `0xE048` (Up) and `0x0048` (keypad 8)
//! are different codes. Print Screen and Pause each have a second code,
//! which the keyboard sends while Alt or Ctrl is held; the table decodes
//! both and encodes the first.

use vstd::prelude::*;
use crate::keys::Key;

verus! {

/// A code that names no key on this platform.
pub const SC_INVALID: u32 = 0x0000;

/// The key that a native code stands for, if any.
pub open spec fn spec_sc_to_key(sc: u32) -> Option<Key> {
    match sc {
        0x0001 => Some(Key::Escape),
        0x0002 => Some(Key::Digit1),
        0x0003 => Some(Key::Digit2),
        0x0004 => Some(Key::Digit3),
        0x0005 => Some(Key::Digit4),
        0x0006 => Some(Key::Digit5),
        0x0007 => Some(Key::Digit6),
        0x0008 => Some(Key::Digit7),
        0x0009 => Some(Key::Digit8),
        0x000a => Some(Key::Digit9),
        0x000b => Some(Key::Digit0),
        0x000c => Some(Key::Minus),
        0x000d => Some(Key::Equal),
        0x000e => Some(Key::Backspace),
        0x000f => Some(Key::Tab),
        0x0010 => Some(Key::KeyQ),
        0x0011 => Some(Key::KeyW),
        0x0012 => Some(Key::KeyE),
        0x0013 => Some(Key::KeyR),
        0x0014 => Some(Key::KeyT),
        0x0015 => Some(Key::KeyY),
        0x0016 => Some(Key::KeyU),
        0x0017 => Some(Key::KeyI),
        0x0018 => Some(Key::KeyO),
        0x0019 => Some(Key::KeyP),
        0x001a => Some(Key::BracketLeft),
        0x001b => Some(Key::BracketRight),
        0x001c => Some(Key::Enter),
        0x001d => Some(Key::ControlLeft),
        0x001e => Some(Key::KeyA),
        0x001f => Some(Key::KeyS),
        0x0020 => Some(Key::KeyD),
        0x0021 => Some(Key::KeyF),
        0x0022 => Some(Key::KeyG),
        0x0023 => Some(Key::KeyH),
        0x0024 => Some(Key::KeyJ),
        0x0025 => Some(Key::KeyK),
        0x0026 => Some(Key::KeyL),
        0x0027 => Some(Key::Semicolon),
        0x0028 => Some(Key::Quote),
        0x0029 => Some(Key::Backquote),
        0x002a => Some(Key::ShiftLeft),
        0x002b => Some(Key::Backslash),
        0x002c => Some(Key::KeyZ),
        0x002d => Some(Key::KeyX),
        0x002e => Some(Key::KeyC),
        0x002f => Some(Key::KeyV),
        0x0030 => Some(Key::KeyB),
        0x0031 => Some(Key::KeyN),
        0x0032 => Some(Key::KeyM),
        0x0033 => Some(Key::Comma),
        0x0034 => Some(Key::Period),
        0x0035 => Some(Key::Slash),
        0x0036 => Some(Key::ShiftRight),
        0x0037 => Some(Key::NumpadMultiply),
        0x0038 => Some(Key::AltLeft),
        0x0039 => Some(Key::Space),
        0x003a => Some(Key::CapsLock),
        0x003b => Some(Key::F1),
        0x003c => Some(Key::F2),
        0x003d => Some(Key::F3),
        0x003e => Some(Key::F4),
        0x003f => Some(Key::F5),
        0x0040 => Some(Key::F6),
        0x0041 => Some(Key::F7),
        0x0042 => Some(Key::F8),
        0x0043 => Some(Key::F9),
        0x0044 => Some(Key::F10),
        0x0045 => Some(Key::Pause),
        0x0046 => Some(Key::ScrollLock),
        0x0047 => Some(Key::Numpad7),
        0x0048 => Some(Key::Numpad8),
        0x0049 => Some(Key::Numpad9),
        0x004a => Some(Key::NumpadSubtract),
        0x004b => Some(Key::Numpad4),
        0x004c => Some(Key::Numpad5),
        0x004d => Some(Key::Numpad6),
        0x004e => Some(Key::NumpadAdd),
        0x004f => Some(Key::Numpad1),
        0x0050 => Some(Key::Numpad2),
        0x0051 => Some(Key::Numpad3),
        0x0052 => Some(Key::Numpad0),
        0x0053 => Some(Key::NumpadDecimal),
        // With Alt held.
        0x0054 => Some(Key::PrintScreen),
        0x0056 => Some(Key::IntlBackslash),
        0x0057 => Some(Key::F11),
        0x0058 => Some(Key::F12),
        0x0064 => Some(Key::F13),
        0x0065 => Some(Key::F14),
        0x0066 => Some(Key::F15),
        0x0067 => Some(Key::F16),
        0x0068 => Some(Key::F17),
        0x0069 => Some(Key::F18),
        0x006a => Some(Key::F19),
        0x006b => Some(Key::F20),
        0x006c => Some(Key::F21),
        0x006d => Some(Key::F22),
        0x006e => Some(Key::F23),
        0x0070 => Some(Key::KanaMode),
        0x0073 => Some(Key::IntlRo),
        0x0076 => Some(Key::F24),
        0x0079 => Some(Key::Convert),
        0x007b => Some(Key::NonConvert),
        0x007d => Some(Key::IntlYen),
        0xe01c => Some(Key::NumpadEnter),
        0xe01d => Some(Key::ControlRight),
        0xe035 => Some(Key::NumpadDivide),
        0xe037 => Some(Key::PrintScreen),
        0xe038 => Some(Key::AltRight),
        0xe045 => Some(Key::NumLock),
        // With Ctrl held.
        0xe046 => Some(Key::Pause),
        0xe047 => Some(Key::Home),
        0xe048 => Some(Key::ArrowUp),
        0xe049 => Some(Key::PageUp),
        0xe04b => Some(Key::ArrowLeft),
        0xe04d => Some(Key::ArrowRight),
        0xe04f => Some(Key::End),
        0xe050 => Some(Key::ArrowDown),
        0xe051 => Some(Key::PageDown),
        0xe052 => Some(Key::Insert),
        0xe053 => Some(Key::Delete),
        0xe05b => Some(Key::LogoLeft),
        0xe05c => Some(Key::LogoRight),
        0xe05d => Some(Key::ContextMenu),
        _ => None,
    }
}

/// The canonical native code of a key, if the platform has the key.
pub open spec fn spec_key_to_sc(key: Key) -> Option<u32> {
    match key {
        Key::Backquote => Some(0x0029),
        Key::Backslash => Some(0x002b),
        Key::BracketLeft => Some(0x001a),
        Key::BracketRight => Some(0x001b),
        Key::Comma => Some(0x0033),
        Key::Digit0 => Some(0x000b),
        Key::Digit1 => Some(0x0002),
        Key::Digit2 => Some(0x0003),
        Key::Digit3 => Some(0x0004),
        Key::Digit4 => Some(0x0005),
        Key::Digit5 => Some(0x0006),
        Key::Digit6 => Some(0x0007),
        Key::Digit7 => Some(0x0008),
        Key::Digit8 => Some(0x0009),
        Key::Digit9 => Some(0x000a),
        Key::Equal => Some(0x000d),
        Key::IntlBackslash => Some(0x0056),
        Key::IntlRo => Some(0x0073),
        Key::IntlYen => Some(0x007d),
        Key::KeyA => Some(0x001e),
        Key::KeyB => Some(0x0030),
        Key::KeyC => Some(0x002e),
        Key::KeyD => Some(0x0020),
        Key::KeyE => Some(0x0012),
        Key::KeyF => Some(0x0021),
        Key::KeyG => Some(0x0022),
        Key::KeyH => Some(0x0023),
        Key::KeyI => Some(0x0017),
        Key::KeyJ => Some(0x0024),
        Key::KeyK => Some(0x0025),
        Key::KeyL => Some(0x0026),
        Key::KeyM => Some(0x0032),
        Key::KeyN => Some(0x0031),
        Key::KeyO => Some(0x0018),
        Key::KeyP => Some(0x0019),
        Key::KeyQ => Some(0x0010),
        Key::KeyR => Some(0x0013),
        Key::KeyS => Some(0x001f),
        Key::KeyT => Some(0x0014),
        Key::KeyU => Some(0x0016),
        Key::KeyV => Some(0x002f),
        Key::KeyW => Some(0x0011),
        Key::KeyX => Some(0x002d),
        Key::KeyY => Some(0x0015),
        Key::KeyZ => Some(0x002c),
        Key::Minus => Some(0x000c),
        Key::Period => Some(0x0034),
        Key::Quote => Some(0x0028),
        Key::Semicolon => Some(0x0027),
        Key::Slash => Some(0x0035),
        Key::AltLeft => Some(0x0038),
        Key::AltRight => Some(0xe038),
        Key::ControlLeft => Some(0x001d),
        Key::ControlRight => Some(0xe01d),
        Key::LogoLeft => Some(0xe05b),
        Key::LogoRight => Some(0xe05c),
        Key::ShiftLeft => Some(0x002a),
        Key::ShiftRight => Some(0x0036),
        Key::Backspace => Some(0x000e),
        Key::CapsLock => Some(0x003a),
        Key::ContextMenu => Some(0xe05d),
        Key::Enter => Some(0x001c),
        Key::Space => Some(0x0039),
        Key::Tab => Some(0x000f),
        Key::Convert => Some(0x0079),
        Key::KanaMode => Some(0x0070),
        Key::NonConvert => Some(0x007b),
        Key::ArrowDown => Some(0xe050),
        Key::ArrowLeft => Some(0xe04b),
        Key::ArrowRight => Some(0xe04d),
        Key::ArrowUp => Some(0xe048),
        Key::Delete => Some(0xe053),
        Key::End => Some(0xe04f),
        Key::Home => Some(0xe047),
        Key::Insert => Some(0xe052),
        Key::PageDown => Some(0xe051),
        Key::PageUp => Some(0xe049),
        Key::NumLock => Some(0xe045),
        Key::Numpad0 => Some(0x0052),
        Key::Numpad1 => Some(0x004f),
        Key::Numpad2 => Some(0x0050),
        Key::Numpad3 => Some(0x0051),
        Key::Numpad4 => Some(0x004b),
        Key::Numpad5 => Some(0x004c),
        Key::Numpad6 => Some(0x004d),
        Key::Numpad7 => Some(0x0047),
        Key::Numpad8 => Some(0x0048),
        Key::Numpad9 => Some(0x0049),
        Key::NumpadAdd => Some(0x004e),
        Key::NumpadDecimal => Some(0x0053),
        Key::NumpadDivide => Some(0xe035),
        Key::NumpadEnter => Some(0xe01c),
        Key::NumpadMultiply => Some(0x0037),
        Key::NumpadSubtract => Some(0x004a),
        Key::Escape => Some(0x0001),
        Key::F1 => Some(0x003b),
        Key::F2 => Some(0x003c),
        Key::F3 => Some(0x003d),
        Key::F4 => Some(0x003e),
        Key::F5 => Some(0x003f),
        Key::F6 => Some(0x0040),
        Key::F7 => Some(0x0041),
        Key::F8 => Some(0x0042),
        Key::F9 => Some(0x0043),
        Key::F10 => Some(0x0044),
        Key::F11 => Some(0x0057),
        Key::F12 => Some(0x0058),
        Key::F13 => Some(0x0064),
        Key::F14 => Some(0x0065),
        Key::F15 => Some(0x0066),
        Key::F16 => Some(0x0067),
        Key::F17 => Some(0x0068),
        Key::F18 => Some(0x0069),
        Key::F19 => Some(0x006a),
        Key::F20 => Some(0x006b),
        Key::F21 => Some(0x006c),
        Key::F22 => Some(0x006d),
        Key::F23 => Some(0x006e),
        Key::F24 => Some(0x0076),
        Key::Help => None,
        Key::Pause => Some(0x0045),
        Key::PrintScreen => Some(0xe037),
        Key::ScrollLock => Some(0x0046),
    }
}

/// Translates a native code into a key. Every `u32` is accepted; a code that
/// the table does not hold gives `None`.
pub fn sc_to_key(sc: u32) -> (r: Option<Key>)
    ensures
        r == spec_sc_to_key(sc),
{
    match sc {
        0x0001 => Some(Key::Escape),
        0x0002 => Some(Key::Digit1),
        0x0003 => Some(Key::Digit2),
        0x0004 => Some(Key::Digit3),
        0x0005 => Some(Key::Digit4),
        0x0006 => Some(Key::Digit5),
        0x0007 => Some(Key::Digit6),
        0x0008 => Some(Key::Digit7),
        0x0009 => Some(Key::Digit8),
        0x000a => Some(Key::Digit9),
        0x000b => Some(Key::Digit0),
        0x000c => Some(Key::Minus),
        0x000d => Some(Key::Equal),
        0x000e => Some(Key::Backspace),
        0x000f => Some(Key::Tab),
        0x0010 => Some(Key::KeyQ),
        0x0011 => Some(Key::KeyW),
        0x0012 => Some(Key::KeyE),
        0x0013 => Some(Key::KeyR),
        0x0014 => Some(Key::KeyT),
        0x0015 => Some(Key::KeyY),
        0x0016 => Some(Key::KeyU),
        0x0017 => Some(Key::KeyI),
        0x0018 => Some(Key::KeyO),
        0x0019 => Some(Key::KeyP),
        0x001a => Some(Key::BracketLeft),
        0x001b => Some(Key::BracketRight),
        0x001c => Some(Key::Enter),
        0x001d => Some(Key::ControlLeft),
        0x001e => Some(Key::KeyA),
        0x001f => Some(Key::KeyS),
        0x0020 => Some(Key::KeyD),
        0x0021 => Some(Key::KeyF),
        0x0022 => Some(Key::KeyG),
        0x0023 => Some(Key::KeyH),
        0x0024 => Some(Key::KeyJ),
        0x0025 => Some(Key::KeyK),
        0x0026 => Some(Key::KeyL),
        0x0027 => Some(Key::Semicolon),
        0x0028 => Some(Key::Quote),
        0x0029 => Some(Key::Backquote),
        0x002a => Some(Key::ShiftLeft),
        0x002b => Some(Key::Backslash),
        0x002c => Some(Key::KeyZ),
        0x002d => Some(Key::KeyX),
        0x002e => Some(Key::KeyC),
        0x002f => Some(Key::KeyV),
        0x0030 => Some(Key::KeyB),
        0x0031 => Some(Key::KeyN),
        0x0032 => Some(Key::KeyM),
        0x0033 => Some(Key::Comma),
        0x0034 => Some(Key::Period),
        0x0035 => Some(Key::Slash),
        0x0036 => Some(Key::ShiftRight),
        0x0037 => Some(Key::NumpadMultiply),
        0x0038 => Some(Key::AltLeft),
        0x0039 => Some(Key::Space),
        0x003a => Some(Key::CapsLock),
        0x003b => Some(Key::F1),
        0x003c => Some(Key::F2),
        0x003d => Some(Key::F3),
        0x003e => Some(Key::F4),
        0x003f => Some(Key::F5),
        0x0040 => Some(Key::F6),
        0x0041 => Some(Key::F7),
        0x0042 => Some(Key::F8),
        0x0043 => Some(Key::F9),
        0x0044 => Some(Key::F10),
        0x0045 => Some(Key::Pause),
        0x0046 => Some(Key::ScrollLock),
        0x0047 => Some(Key::Numpad7),
        0x0048 => Some(Key::Numpad8),
        0x0049 => Some(Key::Numpad9),
        0x004a => Some(Key::NumpadSubtract),
        0x004b => Some(Key::Numpad4),
        0x004c => Some(Key::Numpad5),
        0x004d => Some(Key::Numpad6),
        0x004e => Some(Key::NumpadAdd),
        0x004f => Some(Key::Numpad1),
        0x0050 => Some(Key::Numpad2),
        0x0051 => Some(Key::Numpad3),
        0x0052 => Some(Key::Numpad0),
        0x0053 => Some(Key::NumpadDecimal),
        // With Alt held.
        0x0054 => Some(Key::PrintScreen),
        0x0056 => Some(Key::IntlBackslash),
        0x0057 => Some(Key::F11),
        0x0058 => Some(Key::F12),
        0x0064 => Some(Key::F13),
        0x0065 => Some(Key::F14),
        0x0066 => Some(Key::F15),
        0x0067 => Some(Key::F16),
        0x0068 => Some(Key::F17),
        0x0069 => Some(Key::F18),
        0x006a => Some(Key::F19),
        0x006b => Some(Key::F20),
        0x006c => Some(Key::F21),
        0x006d => Some(Key::F22),
        0x006e => Some(Key::F23),
        0x0070 => Some(Key::KanaMode),
        0x0073 => Some(Key::IntlRo),
        0x0076 => Some(Key::F24),
        0x0079 => Some(Key::Convert),
        0x007b => Some(Key::NonConvert),
        0x007d => Some(Key::IntlYen),
        0xe01c => Some(Key::NumpadEnter),
        0xe01d => Some(Key::ControlRight),
        0xe035 => Some(Key::NumpadDivide),
        0xe037 => Some(Key::PrintScreen),
        0xe038 => Some(Key::AltRight),
        0xe045 => Some(Key::NumLock),
        // With Ctrl held.
        0xe046 => Some(Key::Pause),
        0xe047 => Some(Key::Home),
        0xe048 => Some(Key::ArrowUp),
        0xe049 => Some(Key::PageUp),
        0xe04b => Some(Key::ArrowLeft),
        0xe04d => Some(Key::ArrowRight),
        0xe04f => Some(Key::End),
        0xe050 => Some(Key::ArrowDown),
        0xe051 => Some(Key::PageDown),
        0xe052 => Some(Key::Insert),
        0xe053 => Some(Key::Delete),
        0xe05b => Some(Key::LogoLeft),
        0xe05c => Some(Key::LogoRight),
        0xe05d => Some(Key::ContextMenu),
        _ => None,
    }
}

/// Translates a key into its canonical native code, or `None` where the
/// platform has no such key. The code that is given decodes to the key.
pub fn key_to_sc(key: Key) -> (r: Option<u32>)
    ensures
        r == spec_key_to_sc(key),
        r matches Some(sc) ==> spec_sc_to_key(sc) == Some(key),
{
    proof {
        if spec_key_to_sc(key) is Some {
            lemma_round_trip(key);
        }
    }
    match key {
        Key::Backquote => Some(0x0029),
        Key::Backslash => Some(0x002b),
        Key::BracketLeft => Some(0x001a),
        Key::BracketRight => Some(0x001b),
        Key::Comma => Some(0x0033),
        Key::Digit0 => Some(0x000b),
        Key::Digit1 => Some(0x0002),
        Key::Digit2 => Some(0x0003),
        Key::Digit3 => Some(0x0004),
        Key::Digit4 => Some(0x0005),
        Key::Digit5 => Some(0x0006),
        Key::Digit6 => Some(0x0007),
        Key::Digit7 => Some(0x0008),
        Key::Digit8 => Some(0x0009),
        Key::Digit9 => Some(0x000a),
        Key::Equal => Some(0x000d),
        Key::IntlBackslash => Some(0x0056),
        Key::IntlRo => Some(0x0073),
        Key::IntlYen => Some(0x007d),
        Key::KeyA => Some(0x001e),
        Key::KeyB => Some(0x0030),
        Key::KeyC => Some(0x002e),
        Key::KeyD => Some(0x0020),
        Key::KeyE => Some(0x0012),
        Key::KeyF => Some(0x0021),
        Key::KeyG => Some(0x0022),
        Key::KeyH => Some(0x0023),
        Key::KeyI => Some(0x0017),
        Key::KeyJ => Some(0x0024),
        Key::KeyK => Some(0x0025),
        Key::KeyL => Some(0x0026),
        Key::KeyM => Some(0x0032),
        Key::KeyN => Some(0x0031),
        Key::KeyO => Some(0x0018),
        Key::KeyP => Some(0x0019),
        Key::KeyQ => Some(0x0010),
        Key::KeyR => Some(0x0013),
        Key::KeyS => Some(0x001f),
        Key::KeyT => Some(0x0014),
        Key::KeyU => Some(0x0016),
        Key::KeyV => Some(0x002f),
        Key::KeyW => Some(0x0011),
        Key::KeyX => Some(0x002d),
        Key::KeyY => Some(0x0015),
        Key::KeyZ => Some(0x002c),
        Key::Minus => Some(0x000c),
        Key::Period => Some(0x0034),
        Key::Quote => Some(0x0028),
        Key::Semicolon => Some(0x0027),
        Key::Slash => Some(0x0035),
        Key::AltLeft => Some(0x0038),
        Key::AltRight => Some(0xe038),
        Key::ControlLeft => Some(0x001d),
        Key::ControlRight => Some(0xe01d),
        Key::LogoLeft => Some(0xe05b),
        Key::LogoRight => Some(0xe05c),
        Key::ShiftLeft => Some(0x002a),
        Key::ShiftRight => Some(0x0036),
        Key::Backspace => Some(0x000e),
        Key::CapsLock => Some(0x003a),
        Key::ContextMenu => Some(0xe05d),
        Key::Enter => Some(0x001c),
        Key::Space => Some(0x0039),
        Key::Tab => Some(0x000f),
        Key::Convert => Some(0x0079),
        Key::KanaMode => Some(0x0070),
        Key::NonConvert => Some(0x007b),
        Key::ArrowDown => Some(0xe050),
        Key::ArrowLeft => Some(0xe04b),
        Key::ArrowRight => Some(0xe04d),
        Key::ArrowUp => Some(0xe048),
        Key::Delete => Some(0xe053),
        Key::End => Some(0xe04f),
        Key::Home => Some(0xe047),
        Key::Insert => Some(0xe052),
        Key::PageDown => Some(0xe051),
        Key::PageUp => Some(0xe049),
        Key::NumLock => Some(0xe045),
        Key::Numpad0 => Some(0x0052),
        Key::Numpad1 => Some(0x004f),
        Key::Numpad2 => Some(0x0050),
        Key::Numpad3 => Some(0x0051),
        Key::Numpad4 => Some(0x004b),
        Key::Numpad5 => Some(0x004c),
        Key::Numpad6 => Some(0x004d),
        Key::Numpad7 => Some(0x0047),
        Key::Numpad8 => Some(0x0048),
        Key::Numpad9 => Some(0x0049),
        Key::NumpadAdd => Some(0x004e),
        Key::NumpadDecimal => Some(0x0053),
        Key::NumpadDivide => Some(0xe035),
        Key::NumpadEnter => Some(0xe01c),
        Key::NumpadMultiply => Some(0x0037),
        Key::NumpadSubtract => Some(0x004a),
        Key::Escape => Some(0x0001),
        Key::F1 => Some(0x003b),
        Key::F2 => Some(0x003c),
        Key::F3 => Some(0x003d),
        Key::F4 => Some(0x003e),
        Key::F5 => Some(0x003f),
        Key::F6 => Some(0x0040),
        Key::F7 => Some(0x0041),
        Key::F8 => Some(0x0042),
        Key::F9 => Some(0x0043),
        Key::F10 => Some(0x0044),
        Key::F11 => Some(0x0057),
        Key::F12 => Some(0x0058),
        Key::F13 => Some(0x0064),
        Key::F14 => Some(0x0065),
        Key::F15 => Some(0x0066),
        Key::F16 => Some(0x0067),
        Key::F17 => Some(0x0068),
        Key::F18 => Some(0x0069),
        Key::F19 => Some(0x006a),
        Key::F20 => Some(0x006b),
        Key::F21 => Some(0x006c),
        Key::F22 => Some(0x006d),
        Key::F23 => Some(0x006e),
        Key::F24 => Some(0x0076),
        Key::Help => None,
        Key::Pause => Some(0x0045),
        Key::PrintScreen => Some(0xe037),
        Key::ScrollLock => Some(0x0046),
    }
}

/// Decoding the canonical code of a key gives the key back.
pub proof fn lemma_round_trip(key: Key)
    requires
        spec_key_to_sc(key) is Some,
    ensures
        spec_sc_to_key(spec_key_to_sc(key).unwrap()) == Some(key),
{
}

/// No code above 16 bits names a key.
pub proof fn lemma_codes_fit_16_bits(sc: u32)
    requires
        spec_sc_to_key(sc) is Some,
    ensures
        sc <= 0xffff,
{
}

/// The invalid code names no key, and no key is encoded as it.
pub proof fn lemma_invalid_code(key: Key)
    ensures
        spec_sc_to_key(SC_INVALID) is None,
        spec_key_to_sc(key) != Some(SC_INVALID),
{
}

} // verus!
