//! Scancodes of Linux: evdev key codes, as the kernel reports them. An X11
//! or Wayland keycode is the evdev code plus 8.

use vstd::prelude::*;
use crate::keys::Key;

verus! {

/// A code that names no key on this platform.
pub const SC_INVALID: u32 = 0;

/// The key that a native code stands for, if any.
pub open spec fn spec_sc_to_key(sc: u32) -> Option<Key> {
    match sc {
        1 => Some(Key::Escape),
        2 => Some(Key::Digit1),
        3 => Some(Key::Digit2),
        4 => Some(Key::Digit3),
        5 => Some(Key::Digit4),
        6 => Some(Key::Digit5),
        7 => Some(Key::Digit6),
        8 => Some(Key::Digit7),
        9 => Some(Key::Digit8),
        10 => Some(Key::Digit9),
        11 => Some(Key::Digit0),
        12 => Some(Key::Minus),
        13 => Some(Key::Equal),
        14 => Some(Key::Backspace),
        15 => Some(Key::Tab),
        16 => Some(Key::KeyQ),
        17 => Some(Key::KeyW),
        18 => Some(Key::KeyE),
        19 => Some(Key::KeyR),
        20 => Some(Key::KeyT),
        21 => Some(Key::KeyY),
        22 => Some(Key::KeyU),
        23 => Some(Key::KeyI),
        24 => Some(Key::KeyO),
        25 => Some(Key::KeyP),
        26 => Some(Key::BracketLeft),
        27 => Some(Key::BracketRight),
        28 => Some(Key::Enter),
        29 => Some(Key::ControlLeft),
        30 => Some(Key::KeyA),
        31 => Some(Key::KeyS),
        32 => Some(Key::KeyD),
        33 => Some(Key::KeyF),
        34 => Some(Key::KeyG),
        35 => Some(Key::KeyH),
        36 => Some(Key::KeyJ),
        37 => Some(Key::KeyK),
        38 => Some(Key::KeyL),
        39 => Some(Key::Semicolon),
        40 => Some(Key::Quote),
        41 => Some(Key::Backquote),
        42 => Some(Key::ShiftLeft),
        43 => Some(Key::Backslash),
        44 => Some(Key::KeyZ),
        45 => Some(Key::KeyX),
        46 => Some(Key::KeyC),
        47 => Some(Key::KeyV),
        48 => Some(Key::KeyB),
        49 => Some(Key::KeyN),
        50 => Some(Key::KeyM),
        51 => Some(Key::Comma),
        52 => Some(Key::Period),
        53 => Some(Key::Slash),
        54 => Some(Key::ShiftRight),
        55 => Some(Key::NumpadMultiply),
        56 => Some(Key::AltLeft),
        57 => Some(Key::Space),
        58 => Some(Key::CapsLock),
        59 => Some(Key::F1),
        60 => Some(Key::F2),
        61 => Some(Key::F3),
        62 => Some(Key::F4),
        63 => Some(Key::F5),
        64 => Some(Key::F6),
        65 => Some(Key::F7),
        66 => Some(Key::F8),
        67 => Some(Key::F9),
        68 => Some(Key::F10),
        69 => Some(Key::NumLock),
        70 => Some(Key::ScrollLock),
        71 => Some(Key::Numpad7),
        72 => Some(Key::Numpad8),
        73 => Some(Key::Numpad9),
        74 => Some(Key::NumpadSubtract),
        75 => Some(Key::Numpad4),
        76 => Some(Key::Numpad5),
        77 => Some(Key::Numpad6),
        78 => Some(Key::NumpadAdd),
        79 => Some(Key::Numpad1),
        80 => Some(Key::Numpad2),
        81 => Some(Key::Numpad3),
        82 => Some(Key::Numpad0),
        83 => Some(Key::NumpadDecimal),
        86 => Some(Key::IntlBackslash),
        87 => Some(Key::F11),
        88 => Some(Key::F12),
        89 => Some(Key::IntlRo),
        92 => Some(Key::Convert),
        93 => Some(Key::KanaMode),
        94 => Some(Key::NonConvert),
        96 => Some(Key::NumpadEnter),
        97 => Some(Key::ControlRight),
        98 => Some(Key::NumpadDivide),
        99 => Some(Key::PrintScreen),
        100 => Some(Key::AltRight),
        102 => Some(Key::Home),
        103 => Some(Key::ArrowUp),
        104 => Some(Key::PageUp),
        105 => Some(Key::ArrowLeft),
        106 => Some(Key::ArrowRight),
        107 => Some(Key::End),
        108 => Some(Key::ArrowDown),
        109 => Some(Key::PageDown),
        110 => Some(Key::Insert),
        111 => Some(Key::Delete),
        119 => Some(Key::Pause),
        124 => Some(Key::IntlYen),
        125 => Some(Key::LogoLeft),
        126 => Some(Key::LogoRight),
        127 => Some(Key::ContextMenu),
        138 => Some(Key::Help),
        183 => Some(Key::F13),
        184 => Some(Key::F14),
        185 => Some(Key::F15),
        186 => Some(Key::F16),
        187 => Some(Key::F17),
        188 => Some(Key::F18),
        189 => Some(Key::F19),
        190 => Some(Key::F20),
        191 => Some(Key::F21),
        192 => Some(Key::F22),
        193 => Some(Key::F23),
        194 => Some(Key::F24),
        _ => None,
    }
}

/// The canonical native code of a key, if the platform has the key.
pub open spec fn spec_key_to_sc(key: Key) -> Option<u32> {
    match key {
        Key::Backquote => Some(41),
        Key::Backslash => Some(43),
        Key::BracketLeft => Some(26),
        Key::BracketRight => Some(27),
        Key::Comma => Some(51),
        Key::Digit0 => Some(11),
        Key::Digit1 => Some(2),
        Key::Digit2 => Some(3),
        Key::Digit3 => Some(4),
        Key::Digit4 => Some(5),
        Key::Digit5 => Some(6),
        Key::Digit6 => Some(7),
        Key::Digit7 => Some(8),
        Key::Digit8 => Some(9),
        Key::Digit9 => Some(10),
        Key::Equal => Some(13),
        Key::IntlBackslash => Some(86),
        Key::IntlRo => Some(89),
        Key::IntlYen => Some(124),
        Key::KeyA => Some(30),
        Key::KeyB => Some(48),
        Key::KeyC => Some(46),
        Key::KeyD => Some(32),
        Key::KeyE => Some(18),
        Key::KeyF => Some(33),
        Key::KeyG => Some(34),
        Key::KeyH => Some(35),
        Key::KeyI => Some(23),
        Key::KeyJ => Some(36),
        Key::KeyK => Some(37),
        Key::KeyL => Some(38),
        Key::KeyM => Some(50),
        Key::KeyN => Some(49),
        Key::KeyO => Some(24),
        Key::KeyP => Some(25),
        Key::KeyQ => Some(16),
        Key::KeyR => Some(19),
        Key::KeyS => Some(31),
        Key::KeyT => Some(20),
        Key::KeyU => Some(22),
        Key::KeyV => Some(47),
        Key::KeyW => Some(17),
        Key::KeyX => Some(45),
        Key::KeyY => Some(21),
        Key::KeyZ => Some(44),
        Key::Minus => Some(12),
        Key::Period => Some(52),
        Key::Quote => Some(40),
        Key::Semicolon => Some(39),
        Key::Slash => Some(53),
        Key::AltLeft => Some(56),
        Key::AltRight => Some(100),
        Key::ControlLeft => Some(29),
        Key::ControlRight => Some(97),
        Key::LogoLeft => Some(125),
        Key::LogoRight => Some(126),
        Key::ShiftLeft => Some(42),
        Key::ShiftRight => Some(54),
        Key::Backspace => Some(14),
        Key::CapsLock => Some(58),
        Key::ContextMenu => Some(127),
        Key::Enter => Some(28),
        Key::Space => Some(57),
        Key::Tab => Some(15),
        Key::Convert => Some(92),
        Key::KanaMode => Some(93),
        Key::NonConvert => Some(94),
        Key::ArrowDown => Some(108),
        Key::ArrowLeft => Some(105),
        Key::ArrowRight => Some(106),
        Key::ArrowUp => Some(103),
        Key::Delete => Some(111),
        Key::End => Some(107),
        Key::Home => Some(102),
        Key::Insert => Some(110),
        Key::PageDown => Some(109),
        Key::PageUp => Some(104),
        Key::NumLock => Some(69),
        Key::Numpad0 => Some(82),
        Key::Numpad1 => Some(79),
        Key::Numpad2 => Some(80),
        Key::Numpad3 => Some(81),
        Key::Numpad4 => Some(75),
        Key::Numpad5 => Some(76),
        Key::Numpad6 => Some(77),
        Key::Numpad7 => Some(71),
        Key::Numpad8 => Some(72),
        Key::Numpad9 => Some(73),
        Key::NumpadAdd => Some(78),
        Key::NumpadDecimal => Some(83),
        Key::NumpadDivide => Some(98),
        Key::NumpadEnter => Some(96),
        Key::NumpadMultiply => Some(55),
        Key::NumpadSubtract => Some(74),
        Key::Escape => Some(1),
        Key::F1 => Some(59),
        Key::F2 => Some(60),
        Key::F3 => Some(61),
        Key::F4 => Some(62),
        Key::F5 => Some(63),
        Key::F6 => Some(64),
        Key::F7 => Some(65),
        Key::F8 => Some(66),
        Key::F9 => Some(67),
        Key::F10 => Some(68),
        Key::F11 => Some(87),
        Key::F12 => Some(88),
        Key::F13 => Some(183),
        Key::F14 => Some(184),
        Key::F15 => Some(185),
        Key::F16 => Some(186),
        Key::F17 => Some(187),
        Key::F18 => Some(188),
        Key::F19 => Some(189),
        Key::F20 => Some(190),
        Key::F21 => Some(191),
        Key::F22 => Some(192),
        Key::F23 => Some(193),
        Key::F24 => Some(194),
        Key::Help => Some(138),
        Key::Pause => Some(119),
        Key::PrintScreen => Some(99),
        Key::ScrollLock => Some(70),
    }
}

/// Translates a native code into a key. Every `u32` is accepted; a code that
/// the table does not hold gives `None`.
pub fn sc_to_key(sc: u32) -> (r: Option<Key>)
    ensures
        r == spec_sc_to_key(sc),
{
    match sc {
        1 => Some(Key::Escape),
        2 => Some(Key::Digit1),
        3 => Some(Key::Digit2),
        4 => Some(Key::Digit3),
        5 => Some(Key::Digit4),
        6 => Some(Key::Digit5),
        7 => Some(Key::Digit6),
        8 => Some(Key::Digit7),
        9 => Some(Key::Digit8),
        10 => Some(Key::Digit9),
        11 => Some(Key::Digit0),
        12 => Some(Key::Minus),
        13 => Some(Key::Equal),
        14 => Some(Key::Backspace),
        15 => Some(Key::Tab),
        16 => Some(Key::KeyQ),
        17 => Some(Key::KeyW),
        18 => Some(Key::KeyE),
        19 => Some(Key::KeyR),
        20 => Some(Key::KeyT),
        21 => Some(Key::KeyY),
        22 => Some(Key::KeyU),
        23 => Some(Key::KeyI),
        24 => Some(Key::KeyO),
        25 => Some(Key::KeyP),
        26 => Some(Key::BracketLeft),
        27 => Some(Key::BracketRight),
        28 => Some(Key::Enter),
        29 => Some(Key::ControlLeft),
        30 => Some(Key::KeyA),
        31 => Some(Key::KeyS),
        32 => Some(Key::KeyD),
        33 => Some(Key::KeyF),
        34 => Some(Key::KeyG),
        35 => Some(Key::KeyH),
        36 => Some(Key::KeyJ),
        37 => Some(Key::KeyK),
        38 => Some(Key::KeyL),
        39 => Some(Key::Semicolon),
        40 => Some(Key::Quote),
        41 => Some(Key::Backquote),
        42 => Some(Key::ShiftLeft),
        43 => Some(Key::Backslash),
        44 => Some(Key::KeyZ),
        45 => Some(Key::KeyX),
        46 => Some(Key::KeyC),
        47 => Some(Key::KeyV),
        48 => Some(Key::KeyB),
        49 => Some(Key::KeyN),
        50 => Some(Key::KeyM),
        51 => Some(Key::Comma),
        52 => Some(Key::Period),
        53 => Some(Key::Slash),
        54 => Some(Key::ShiftRight),
        55 => Some(Key::NumpadMultiply),
        56 => Some(Key::AltLeft),
        57 => Some(Key::Space),
        58 => Some(Key::CapsLock),
        59 => Some(Key::F1),
        60 => Some(Key::F2),
        61 => Some(Key::F3),
        62 => Some(Key::F4),
        63 => Some(Key::F5),
        64 => Some(Key::F6),
        65 => Some(Key::F7),
        66 => Some(Key::F8),
        67 => Some(Key::F9),
        68 => Some(Key::F10),
        69 => Some(Key::NumLock),
        70 => Some(Key::ScrollLock),
        71 => Some(Key::Numpad7),
        72 => Some(Key::Numpad8),
        73 => Some(Key::Numpad9),
        74 => Some(Key::NumpadSubtract),
        75 => Some(Key::Numpad4),
        76 => Some(Key::Numpad5),
        77 => Some(Key::Numpad6),
        78 => Some(Key::NumpadAdd),
        79 => Some(Key::Numpad1),
        80 => Some(Key::Numpad2),
        81 => Some(Key::Numpad3),
        82 => Some(Key::Numpad0),
        83 => Some(Key::NumpadDecimal),
        86 => Some(Key::IntlBackslash),
        87 => Some(Key::F11),
        88 => Some(Key::F12),
        89 => Some(Key::IntlRo),
        92 => Some(Key::Convert),
        93 => Some(Key::KanaMode),
        94 => Some(Key::NonConvert),
        96 => Some(Key::NumpadEnter),
        97 => Some(Key::ControlRight),
        98 => Some(Key::NumpadDivide),
        99 => Some(Key::PrintScreen),
        100 => Some(Key::AltRight),
        102 => Some(Key::Home),
        103 => Some(Key::ArrowUp),
        104 => Some(Key::PageUp),
        105 => Some(Key::ArrowLeft),
        106 => Some(Key::ArrowRight),
        107 => Some(Key::End),
        108 => Some(Key::ArrowDown),
        109 => Some(Key::PageDown),
        110 => Some(Key::Insert),
        111 => Some(Key::Delete),
        119 => Some(Key::Pause),
        124 => Some(Key::IntlYen),
        125 => Some(Key::LogoLeft),
        126 => Some(Key::LogoRight),
        127 => Some(Key::ContextMenu),
        138 => Some(Key::Help),
        183 => Some(Key::F13),
        184 => Some(Key::F14),
        185 => Some(Key::F15),
        186 => Some(Key::F16),
        187 => Some(Key::F17),
        188 => Some(Key::F18),
        189 => Some(Key::F19),
        190 => Some(Key::F20),
        191 => Some(Key::F21),
        192 => Some(Key::F22),
        193 => Some(Key::F23),
        194 => Some(Key::F24),
        _ => None,
    }
}

/// Translates a key into its canonical native code, or `None` where the
/// platform has no such key. The code that is given decodes to the key.
pub fn key_to_sc(key: Key) -> (r: Option<u32>)
    ensures
        r == spec_key_to_sc(key),
        r matches Some(sc) ==> spec_sc_to_key(sc) == Some(key),
{
    proof {
        if spec_key_to_sc(key) is Some {
            lemma_round_trip(key);
        }
    }
    match key {
        Key::Backquote => Some(41),
        Key::Backslash => Some(43),
        Key::BracketLeft => Some(26),
        Key::BracketRight => Some(27),
        Key::Comma => Some(51),
        Key::Digit0 => Some(11),
        Key::Digit1 => Some(2),
        Key::Digit2 => Some(3),
        Key::Digit3 => Some(4),
        Key::Digit4 => Some(5),
        Key::Digit5 => Some(6),
        Key::Digit6 => Some(7),
        Key::Digit7 => Some(8),
        Key::Digit8 => Some(9),
        Key::Digit9 => Some(10),
        Key::Equal => Some(13),
        Key::IntlBackslash => Some(86),
        Key::IntlRo => Some(89),
        Key::IntlYen => Some(124),
        Key::KeyA => Some(30),
        Key::KeyB => Some(48),
        Key::KeyC => Some(46),
        Key::KeyD => Some(32),
        Key::KeyE => Some(18),
        Key::KeyF => Some(33),
        Key::KeyG => Some(34),
        Key::KeyH => Some(35),
        Key::KeyI => Some(23),
        Key::KeyJ => Some(36),
        Key::KeyK => Some(37),
        Key::KeyL => Some(38),
        Key::KeyM => Some(50),
        Key::KeyN => Some(49),
        Key::KeyO => Some(24),
        Key::KeyP => Some(25),
        Key::KeyQ => Some(16),
        Key::KeyR => Some(19),
        Key::KeyS => Some(31),
        Key::KeyT => Some(20),
        Key::KeyU => Some(22),
        Key::KeyV => Some(47),
        Key::KeyW => Some(17),
        Key::KeyX => Some(45),
        Key::KeyY => Some(21),
        Key::KeyZ => Some(44),
        Key::Minus => Some(12),
        Key::Period => Some(52),
        Key::Quote => Some(40),
        Key::Semicolon => Some(39),
        Key::Slash => Some(53),
        Key::AltLeft => Some(56),
        Key::AltRight => Some(100),
        Key::ControlLeft => Some(29),
        Key::ControlRight => Some(97),
        Key::LogoLeft => Some(125),
        Key::LogoRight => Some(126),
        Key::ShiftLeft => Some(42),
        Key::ShiftRight => Some(54),
        Key::Backspace => Some(14),
        Key::CapsLock => Some(58),
        Key::ContextMenu => Some(127),
        Key::Enter => Some(28),
        Key::Space => Some(57),
        Key::Tab => Some(15),
        Key::Convert => Some(92),
        Key::KanaMode => Some(93),
        Key::NonConvert => Some(94),
        Key::ArrowDown => Some(108),
        Key::ArrowLeft => Some(105),
        Key::ArrowRight => Some(106),
        Key::ArrowUp => Some(103),
        Key::Delete => Some(111),
        Key::End => Some(107),
        Key::Home => Some(102),
        Key::Insert => Some(110),
        Key::PageDown => Some(109),
        Key::PageUp => Some(104),
        Key::NumLock => Some(69),
        Key::Numpad0 => Some(82),
        Key::Numpad1 => Some(79),
        Key::Numpad2 => Some(80),
        Key::Numpad3 => Some(81),
        Key::Numpad4 => Some(75),
        Key::Numpad5 => Some(76),
        Key::Numpad6 => Some(77),
        Key::Numpad7 => Some(71),
        Key::Numpad8 => Some(72),
        Key::Numpad9 => Some(73),
        Key::NumpadAdd => Some(78),
        Key::NumpadDecimal => Some(83),
        Key::NumpadDivide => Some(98),
        Key::NumpadEnter => Some(96),
        Key::NumpadMultiply => Some(55),
        Key::NumpadSubtract => Some(74),
        Key::Escape => Some(1),
        Key::F1 => Some(59),
        Key::F2 => Some(60),
        Key::F3 => Some(61),
        Key::F4 => Some(62),
        Key::F5 => Some(63),
        Key::F6 => Some(64),
        Key::F7 => Some(65),
        Key::F8 => Some(66),
        Key::F9 => Some(67),
        Key::F10 => Some(68),
        Key::F11 => Some(87),
        Key::F12 => Some(88),
        Key::F13 => Some(183),
        Key::F14 => Some(184),
        Key::F15 => Some(185),
        Key::F16 => Some(186),
        Key::F17 => Some(187),
        Key::F18 => Some(188),
        Key::F19 => Some(189),
        Key::F20 => Some(190),
        Key::F21 => Some(191),
        Key::F22 => Some(192),
        Key::F23 => Some(193),
        Key::F24 => Some(194),
        Key::Help => Some(138),
        Key::Pause => Some(119),
        Key::PrintScreen => Some(99),
        Key::ScrollLock => Some(70),
    }
}

/// Decoding the canonical code of a key gives the key back.
pub proof fn lemma_round_trip(key: Key)
    requires
        spec_key_to_sc(key) is Some,
    ensures
        spec_sc_to_key(spec_key_to_sc(key).unwrap()) == Some(key),
{
}

/// No code above 16 bits names a key.
pub proof fn lemma_codes_fit_16_bits(sc: u32)
    requires
        spec_sc_to_key(sc) is Some,
    ensures
        sc <= 0xffff,
{
}

/// The invalid code names no key, and no key is encoded as it.
pub proof fn lemma_invalid_code(key: Key)
    ensures
        spec_sc_to_key(SC_INVALID) is None,
        spec_key_to_sc(key) != Some(SC_INVALID),
{
}

} // verus!
