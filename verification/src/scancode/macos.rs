//! Scancodes of macOS: virtual key codes. They name positions on an ANSI
//! keyboard, so the letter codes follow no alphabet. Apple keyboards have
//! no Insert, Num Lock, Print Screen, Scroll Lock or Pause key, and the
//! right Command key is not encoded: it has a code only on some keyboards.

use vstd::prelude::*;
use crate::keys::Key;

verus! {

/// A code that names no key on this platform.
pub const SC_INVALID: u32 = 0xffff;

/// The key that a native code stands for, if any.
pub open spec fn spec_sc_to_key(sc: u32) -> Option<Key> {
    match sc {
        0x00 => Some(Key::KeyA),
        0x01 => Some(Key::KeyS),
        0x02 => Some(Key::KeyD),
        0x03 => Some(Key::KeyF),
        0x04 => Some(Key::KeyH),
        0x05 => Some(Key::KeyG),
        0x06 => Some(Key::KeyZ),
        0x07 => Some(Key::KeyX),
        0x08 => Some(Key::KeyC),
        0x09 => Some(Key::KeyV),
        // The key left of 1 on ISO keyboards.
        0x0a => Some(Key::Backquote),
        0x0b => Some(Key::KeyB),
        0x0c => Some(Key::KeyQ),
        0x0d => Some(Key::KeyW),
        0x0e => Some(Key::KeyE),
        0x0f => Some(Key::KeyR),
        0x10 => Some(Key::KeyY),
        0x11 => Some(Key::KeyT),
        0x12 => Some(Key::Digit1),
        0x13 => Some(Key::Digit2),
        0x14 => Some(Key::Digit3),
        0x15 => Some(Key::Digit4),
        0x16 => Some(Key::Digit6),
        0x17 => Some(Key::Digit5),
        0x18 => Some(Key::Equal),
        0x19 => Some(Key::Digit9),
        0x1a => Some(Key::Digit7),
        0x1b => Some(Key::Minus),
        0x1c => Some(Key::Digit8),
        0x1d => Some(Key::Digit0),
        0x1e => Some(Key::BracketRight),
        0x1f => Some(Key::KeyO),
        0x20 => Some(Key::KeyU),
        0x21 => Some(Key::BracketLeft),
        0x22 => Some(Key::KeyI),
        0x23 => Some(Key::KeyP),
        0x24 => Some(Key::Enter),
        0x25 => Some(Key::KeyL),
        0x26 => Some(Key::KeyJ),
        0x27 => Some(Key::Quote),
        0x28 => Some(Key::KeyK),
        0x29 => Some(Key::Semicolon),
        0x2a => Some(Key::Backslash),
        0x2b => Some(Key::Comma),
        0x2c => Some(Key::Slash),
        0x2d => Some(Key::KeyN),
        0x2e => Some(Key::KeyM),
        0x2f => Some(Key::Period),
        0x30 => Some(Key::Tab),
        0x31 => Some(Key::Space),
        0x32 => Some(Key::Backquote),
        0x33 => Some(Key::Backspace),
        0x35 => Some(Key::Escape),
        // Right Command, reported by some keyboards.
        0x36 => Some(Key::LogoRight),
        0x37 => Some(Key::LogoLeft),
        0x38 => Some(Key::ShiftLeft),
        0x39 => Some(Key::CapsLock),
        0x3a => Some(Key::AltLeft),
        0x3b => Some(Key::ControlLeft),
        0x3c => Some(Key::ShiftRight),
        0x3d => Some(Key::AltRight),
        0x3e => Some(Key::ControlRight),
        0x40 => Some(Key::F17),
        0x41 => Some(Key::NumpadDecimal),
        0x43 => Some(Key::NumpadMultiply),
        0x45 => Some(Key::NumpadAdd),
        // The keypad's Clear key.
        0x47 => Some(Key::NumLock),
        0x4b => Some(Key::NumpadDivide),
        0x4c => Some(Key::NumpadEnter),
        0x4e => Some(Key::NumpadSubtract),
        0x4f => Some(Key::F18),
        0x50 => Some(Key::F19),
        0x52 => Some(Key::Numpad0),
        0x53 => Some(Key::Numpad1),
        0x54 => Some(Key::Numpad2),
        0x55 => Some(Key::Numpad3),
        0x56 => Some(Key::Numpad4),
        0x57 => Some(Key::Numpad5),
        0x58 => Some(Key::Numpad6),
        0x59 => Some(Key::Numpad7),
        0x5a => Some(Key::F20),
        0x5b => Some(Key::Numpad8),
        0x5c => Some(Key::Numpad9),
        0x5d => Some(Key::IntlYen),
        0x60 => Some(Key::F5),
        0x61 => Some(Key::F6),
        0x62 => Some(Key::F7),
        0x63 => Some(Key::F3),
        0x64 => Some(Key::F8),
        0x65 => Some(Key::F9),
        0x67 => Some(Key::F11),
        0x69 => Some(Key::F13),
        0x6a => Some(Key::F16),
        0x6b => Some(Key::F14),
        0x6d => Some(Key::F10),
        0x6f => Some(Key::F12),
        0x71 => Some(Key::F15),
        0x72 => Some(Key::Help),
        0x73 => Some(Key::Home),
        0x74 => Some(Key::PageUp),
        0x75 => Some(Key::Delete),
        0x76 => Some(Key::F4),
        0x77 => Some(Key::End),
        0x78 => Some(Key::F2),
        0x79 => Some(Key::PageDown),
        0x7a => Some(Key::F1),
        0x7b => Some(Key::ArrowLeft),
        0x7c => Some(Key::ArrowRight),
        0x7d => Some(Key::ArrowDown),
        0x7e => Some(Key::ArrowUp),
        _ => None,
    }
}

/// The canonical native code of a key, if the platform has the key.
pub open spec fn spec_key_to_sc(key: Key) -> Option<u32> {
    match key {
        Key::Backquote => Some(0x32),
        Key::Backslash => Some(0x2a),
        Key::BracketLeft => Some(0x21),
        Key::BracketRight => Some(0x1e),
        Key::Comma => Some(0x2b),
        Key::Digit0 => Some(0x1d),
        Key::Digit1 => Some(0x12),
        Key::Digit2 => Some(0x13),
        Key::Digit3 => Some(0x14),
        Key::Digit4 => Some(0x15),
        Key::Digit5 => Some(0x17),
        Key::Digit6 => Some(0x16),
        Key::Digit7 => Some(0x1a),
        Key::Digit8 => Some(0x1c),
        Key::Digit9 => Some(0x19),
        Key::Equal => Some(0x18),
        Key::IntlBackslash => None,
        Key::IntlRo => None,
        Key::IntlYen => Some(0x5d),
        Key::KeyA => Some(0x00),
        Key::KeyB => Some(0x0b),
        Key::KeyC => Some(0x08),
        Key::KeyD => Some(0x02),
        Key::KeyE => Some(0x0e),
        Key::KeyF => Some(0x03),
        Key::KeyG => Some(0x05),
        Key::KeyH => Some(0x04),
        Key::KeyI => Some(0x22),
        Key::KeyJ => Some(0x26),
        Key::KeyK => Some(0x28),
        Key::KeyL => Some(0x25),
        Key::KeyM => Some(0x2e),
        Key::KeyN => Some(0x2d),
        Key::KeyO => Some(0x1f),
        Key::KeyP => Some(0x23),
        Key::KeyQ => Some(0x0c),
        Key::KeyR => Some(0x0f),
        Key::KeyS => Some(0x01),
        Key::KeyT => Some(0x11),
        Key::KeyU => Some(0x20),
        Key::KeyV => Some(0x09),
        Key::KeyW => Some(0x0d),
        Key::KeyX => Some(0x07),
        Key::KeyY => Some(0x10),
        Key::KeyZ => Some(0x06),
        Key::Minus => Some(0x1b),
        Key::Period => Some(0x2f),
        Key::Quote => Some(0x27),
        Key::Semicolon => Some(0x29),
        Key::Slash => Some(0x2c),
        Key::AltLeft => Some(0x3a),
        Key::AltRight => Some(0x3d),
        Key::ControlLeft => Some(0x3b),
        Key::ControlRight => Some(0x3e),
        Key::LogoLeft => Some(0x37),
        Key::LogoRight => None,
        Key::ShiftLeft => Some(0x38),
        Key::ShiftRight => Some(0x3c),
        Key::Backspace => Some(0x33),
        Key::CapsLock => Some(0x39),
        Key::ContextMenu => None,
        Key::Enter => Some(0x24),
        Key::Space => Some(0x31),
        Key::Tab => Some(0x30),
        Key::Convert => None,
        Key::KanaMode => None,
        Key::NonConvert => None,
        Key::ArrowDown => Some(0x7d),
        Key::ArrowLeft => Some(0x7b),
        Key::ArrowRight => Some(0x7c),
        Key::ArrowUp => Some(0x7e),
        Key::Delete => Some(0x75),
        Key::End => Some(0x77),
        Key::Home => Some(0x73),
        Key::Insert => None,
        Key::PageDown => Some(0x79),
        Key::PageUp => Some(0x74),
        Key::NumLock => None,
        Key::Numpad0 => Some(0x52),
        Key::Numpad1 => Some(0x53),
        Key::Numpad2 => Some(0x54),
        Key::Numpad3 => Some(0x55),
        Key::Numpad4 => Some(0x56),
        Key::Numpad5 => Some(0x57),
        Key::Numpad6 => Some(0x58),
        Key::Numpad7 => Some(0x59),
        Key::Numpad8 => Some(0x5b),
        Key::Numpad9 => Some(0x5c),
        Key::NumpadAdd => Some(0x45),
        Key::NumpadDecimal => Some(0x41),
        Key::NumpadDivide => Some(0x4b),
        Key::NumpadEnter => Some(0x4c),
        Key::NumpadMultiply => Some(0x43),
        Key::NumpadSubtract => Some(0x4e),
        Key::Escape => Some(0x35),
        Key::F1 => Some(0x7a),
        Key::F2 => Some(0x78),
        Key::F3 => Some(0x63),
        Key::F4 => Some(0x76),
        Key::F5 => Some(0x60),
        Key::F6 => Some(0x61),
        Key::F7 => Some(0x62),
        Key::F8 => Some(0x64),
        Key::F9 => Some(0x65),
        Key::F10 => Some(0x6d),
        Key::F11 => Some(0x67),
        Key::F12 => Some(0x6f),
        Key::F13 => Some(0x69),
        Key::F14 => Some(0x6b),
        Key::F15 => Some(0x71),
        Key::F16 => Some(0x6a),
        Key::F17 => Some(0x40),
        Key::F18 => Some(0x4f),
        Key::F19 => Some(0x50),
        Key::F20 => Some(0x5a),
        Key::F21 => None,
        Key::F22 => None,
        Key::F23 => None,
        Key::F24 => None,
        Key::Help => Some(0x72),
        Key::Pause => None,
        Key::PrintScreen => None,
        Key::ScrollLock => None,
    }
}

/// Translates a native code into a key. Every `u32` is accepted; a code that
/// the table does not hold gives `None`.
pub fn sc_to_key(sc: u32) -> (r: Option<Key>)
    ensures
        r == spec_sc_to_key(sc),
{
    match sc {
        0x00 => Some(Key::KeyA),
        0x01 => Some(Key::KeyS),
        0x02 => Some(Key::KeyD),
        0x03 => Some(Key::KeyF),
        0x04 => Some(Key::KeyH),
        0x05 => Some(Key::KeyG),
        0x06 => Some(Key::KeyZ),
        0x07 => Some(Key::KeyX),
        0x08 => Some(Key::KeyC),
        0x09 => Some(Key::KeyV),
        // The key left of 1 on ISO keyboards.
        0x0a => Some(Key::Backquote),
        0x0b => Some(Key::KeyB),
        0x0c => Some(Key::KeyQ),
        0x0d => Some(Key::KeyW),
        0x0e => Some(Key::KeyE),
        0x0f => Some(Key::KeyR),
        0x10 => Some(Key::KeyY),
        0x11 => Some(Key::KeyT),
        0x12 => Some(Key::Digit1),
        0x13 => Some(Key::Digit2),
        0x14 => Some(Key::Digit3),
        0x15 => Some(Key::Digit4),
        0x16 => Some(Key::Digit6),
        0x17 => Some(Key::Digit5),
        0x18 => Some(Key::Equal),
        0x19 => Some(Key::Digit9),
        0x1a => Some(Key::Digit7),
        0x1b => Some(Key::Minus),
        0x1c => Some(Key::Digit8),
        0x1d => Some(Key::Digit0),
        0x1e => Some(Key::BracketRight),
        0x1f => Some(Key::KeyO),
        0x20 => Some(Key::KeyU),
        0x21 => Some(Key::BracketLeft),
        0x22 => Some(Key::KeyI),
        0x23 => Some(Key::KeyP),
        0x24 => Some(Key::Enter),
        0x25 => Some(Key::KeyL),
        0x26 => Some(Key::KeyJ),
        0x27 => Some(Key::Quote),
        0x28 => Some(Key::KeyK),
        0x29 => Some(Key::Semicolon),
        0x2a => Some(Key::Backslash),
        0x2b => Some(Key::Comma),
        0x2c => Some(Key::Slash),
        0x2d => Some(Key::KeyN),
        0x2e => Some(Key::KeyM),
        0x2f => Some(Key::Period),
        0x30 => Some(Key::Tab),
        0x31 => Some(Key::Space),
        0x32 => Some(Key::Backquote),
        0x33 => Some(Key::Backspace),
        0x35 => Some(Key::Escape),
        // Right Command, reported by some keyboards.
        0x36 => Some(Key::LogoRight),
        0x37 => Some(Key::LogoLeft),
        0x38 => Some(Key::ShiftLeft),
        0x39 => Some(Key::CapsLock),
        0x3a => Some(Key::AltLeft),
        0x3b => Some(Key::ControlLeft),
        0x3c => Some(Key::ShiftRight),
        0x3d => Some(Key::AltRight),
        0x3e => Some(Key::ControlRight),
        0x40 => Some(Key::F17),
        0x41 => Some(Key::NumpadDecimal),
        0x43 => Some(Key::NumpadMultiply),
        0x45 => Some(Key::NumpadAdd),
        // The keypad's Clear key.
        0x47 => Some(Key::NumLock),
        0x4b => Some(Key::NumpadDivide),
        0x4c => Some(Key::NumpadEnter),
        0x4e => Some(Key::NumpadSubtract),
        0x4f => Some(Key::F18),
        0x50 => Some(Key::F19),
        0x52 => Some(Key::Numpad0),
        0x53 => Some(Key::Numpad1),
        0x54 => Some(Key::Numpad2),
        0x55 => Some(Key::Numpad3),
        0x56 => Some(Key::Numpad4),
        0x57 => Some(Key::Numpad5),
        0x58 => Some(Key::Numpad6),
        0x59 => Some(Key::Numpad7),
        0x5a => Some(Key::F20),
        0x5b => Some(Key::Numpad8),
        0x5c => Some(Key::Numpad9),
        0x5d => Some(Key::IntlYen),
        0x60 => Some(Key::F5),
        0x61 => Some(Key::F6),
        0x62 => Some(Key::F7),
        0x63 => Some(Key::F3),
        0x64 => Some(Key::F8),
        0x65 => Some(Key::F9),
        0x67 => Some(Key::F11),
        0x69 => Some(Key::F13),
        0x6a => Some(Key::F16),
        0x6b => Some(Key::F14),
        0x6d => Some(Key::F10),
        0x6f => Some(Key::F12),
        0x71 => Some(Key::F15),
        0x72 => Some(Key::Help),
        0x73 => Some(Key::Home),
        0x74 => Some(Key::PageUp),
        0x75 => Some(Key::Delete),
        0x76 => Some(Key::F4),
        0x77 => Some(Key::End),
        0x78 => Some(Key::F2),
        0x79 => Some(Key::PageDown),
        0x7a => Some(Key::F1),
        0x7b => Some(Key::ArrowLeft),
        0x7c => Some(Key::ArrowRight),
        0x7d => Some(Key::ArrowDown),
        0x7e => Some(Key::ArrowUp),
        _ => None,
    }
}

/// Translates a key into its canonical native code, or `None` where the
/// platform has no such key. The code that is given decodes to the key.
pub fn key_to_sc(key: Key) -> (r: Option<u32>)
    ensures
        r == spec_key_to_sc(key),
        r matches Some(sc) ==> spec_sc_to_key(sc) == Some(key),
{
    proof {
        if spec_key_to_sc(key) is Some {
            lemma_round_trip(key);
        }
    }
    match key {
        Key::Backquote => Some(0x32),
        Key::Backslash => Some(0x2a),
        Key::BracketLeft => Some(0x21),
        Key::BracketRight => Some(0x1e),
        Key::Comma => Some(0x2b),
        Key::Digit0 => Some(0x1d),
        Key::Digit1 => Some(0x12),
        Key::Digit2 => Some(0x13),
        Key::Digit3 => Some(0x14),
        Key::Digit4 => Some(0x15),
        Key::Digit5 => Some(0x17),
        Key::Digit6 => Some(0x16),
        Key::Digit7 => Some(0x1a),
        Key::Digit8 => Some(0x1c),
        Key::Digit9 => Some(0x19),
        Key::Equal => Some(0x18),
        Key::IntlBackslash => None,
        Key::IntlRo => None,
        Key::IntlYen => Some(0x5d),
        Key::KeyA => Some(0x00),
        Key::KeyB => Some(0x0b),
        Key::KeyC => Some(0x08),
        Key::KeyD => Some(0x02),
        Key::KeyE => Some(0x0e),
        Key::KeyF => Some(0x03),
        Key::KeyG => Some(0x05),
        Key::KeyH => Some(0x04),
        Key::KeyI => Some(0x22),
        Key::KeyJ => Some(0x26),
        Key::KeyK => Some(0x28),
        Key::KeyL => Some(0x25),
        Key::KeyM => Some(0x2e),
        Key::KeyN => Some(0x2d),
        Key::KeyO => Some(0x1f),
        Key::KeyP => Some(0x23),
        Key::KeyQ => Some(0x0c),
        Key::KeyR => Some(0x0f),
        Key::KeyS => Some(0x01),
        Key::KeyT => Some(0x11),
        Key::KeyU => Some(0x20),
        Key::KeyV => Some(0x09),
        Key::KeyW => Some(0x0d),
        Key::KeyX => Some(0x07),
        Key::KeyY => Some(0x10),
        Key::KeyZ => Some(0x06),
        Key::Minus => Some(0x1b),
        Key::Period => Some(0x2f),
        Key::Quote => Some(0x27),
        Key::Semicolon => Some(0x29),
        Key::Slash => Some(0x2c),
        Key::AltLeft => Some(0x3a),
        Key::AltRight => Some(0x3d),
        Key::ControlLeft => Some(0x3b),
        Key::ControlRight => Some(0x3e),
        Key::LogoLeft => Some(0x37),
        Key::LogoRight => None,
        Key::ShiftLeft => Some(0x38),
        Key::ShiftRight => Some(0x3c),
        Key::Backspace => Some(0x33),
        Key::CapsLock => Some(0x39),
        Key::ContextMenu => None,
        Key::Enter => Some(0x24),
        Key::Space => Some(0x31),
        Key::Tab => Some(0x30),
        Key::Convert => None,
        Key::KanaMode => None,
        Key::NonConvert => None,
        Key::ArrowDown => Some(0x7d),
        Key::ArrowLeft => Some(0x7b),
        Key::ArrowRight => Some(0x7c),
        Key::ArrowUp => Some(0x7e),
        Key::Delete => Some(0x75),
        Key::End => Some(0x77),
        Key::Home => Some(0x73),
        Key::Insert => None,
        Key::PageDown => Some(0x79),
        Key::PageUp => Some(0x74),
        Key::NumLock => None,
        Key::Numpad0 => Some(0x52),
        Key::Numpad1 => Some(0x53),
        Key::Numpad2 => Some(0x54),
        Key::Numpad3 => Some(0x55),
        Key::Numpad4 => Some(0x56),
        Key::Numpad5 => Some(0x57),
        Key::Numpad6 => Some(0x58),
        Key::Numpad7 => Some(0x59),
        Key::Numpad8 => Some(0x5b),
        Key::Numpad9 => Some(0x5c),
        Key::NumpadAdd => Some(0x45),
        Key::NumpadDecimal => Some(0x41),
        Key::NumpadDivide => Some(0x4b),
        Key::NumpadEnter => Some(0x4c),
        Key::NumpadMultiply => Some(0x43),
        Key::NumpadSubtract => Some(0x4e),
        Key::Escape => Some(0x35),
        Key::F1 => Some(0x7a),
        Key::F2 => Some(0x78),
        Key::F3 => Some(0x63),
        Key::F4 => Some(0x76),
        Key::F5 => Some(0x60),
        Key::F6 => Some(0x61),
        Key::F7 => Some(0x62),
        Key::F8 => Some(0x64),
        Key::F9 => Some(0x65),
        Key::F10 => Some(0x6d),
        Key::F11 => Some(0x67),
        Key::F12 => Some(0x6f),
        Key::F13 => Some(0x69),
        Key::F14 => Some(0x6b),
        Key::F15 => Some(0x71),
        Key::F16 => Some(0x6a),
        Key::F17 => Some(0x40),
        Key::F18 => Some(0x4f),
        Key::F19 => Some(0x50),
        Key::F20 => Some(0x5a),
        Key::F21 => None,
        Key::F22 => None,
        Key::F23 => None,
        Key::F24 => None,
        Key::Help => Some(0x72),
        Key::Pause => None,
        Key::PrintScreen => None,
        Key::ScrollLock => None,
    }
}

/// Decoding the canonical code of a key gives the key back.
pub proof fn lemma_round_trip(key: Key)
    requires
        spec_key_to_sc(key) is Some,
    ensures
        spec_sc_to_key(spec_key_to_sc(key).unwrap()) == Some(key),
{
}

/// No code above 16 bits names a key.
pub proof fn lemma_codes_fit_16_bits(sc: u32)
    requires
        spec_sc_to_key(sc) is Some,
    ensures
        sc <= 0xffff,
{
}

/// The invalid code names no key, and no key is encoded as it.
pub proof fn lemma_invalid_code(key: Key)
    ensures
        spec_sc_to_key(SC_INVALID) is None,
        spec_key_to_sc(key) != Some(SC_INVALID),
{
}

} // verus!
