//! Scancodes of the web: the legacy `keyCode` of DOM keyboard events. It
//! does not tell left from right, nor the keypad's Enter from the main one:
//! the code is decoded as the left key, and the right one is not encoded.

use vstd::prelude::*;
use crate::keys::Key;

verus! {

/// A code that names no key on this platform.
pub const SC_INVALID: u32 = 0;

/// The key that a native code stands for, if any.
pub open spec fn spec_sc_to_key(sc: u32) -> Option<Key> {
    match sc {
        8 => Some(Key::Backspace),
        9 => Some(Key::Tab),
        13 => Some(Key::Enter),
        16 => Some(Key::ShiftLeft),
        17 => Some(Key::ControlLeft),
        18 => Some(Key::AltLeft),
        19 => Some(Key::Pause),
        20 => Some(Key::CapsLock),
        21 => Some(Key::KanaMode),
        27 => Some(Key::Escape),
        28 => Some(Key::Convert),
        29 => Some(Key::NonConvert),
        32 => Some(Key::Space),
        33 => Some(Key::PageUp),
        34 => Some(Key::PageDown),
        35 => Some(Key::End),
        36 => Some(Key::Home),
        37 => Some(Key::ArrowLeft),
        38 => Some(Key::ArrowUp),
        39 => Some(Key::ArrowRight),
        40 => Some(Key::ArrowDown),
        44 => Some(Key::PrintScreen),
        45 => Some(Key::Insert),
        46 => Some(Key::Delete),
        47 => Some(Key::Help),
        48 => Some(Key::Digit0),
        49 => Some(Key::Digit1),
        50 => Some(Key::Digit2),
        51 => Some(Key::Digit3),
        52 => Some(Key::Digit4),
        53 => Some(Key::Digit5),
        54 => Some(Key::Digit6),
        55 => Some(Key::Digit7),
        56 => Some(Key::Digit8),
        57 => Some(Key::Digit9),
        // As Firefox reports it.
        59 => Some(Key::Semicolon),
        // As Firefox reports it.
        61 => Some(Key::Equal),
        65 => Some(Key::KeyA),
        66 => Some(Key::KeyB),
        67 => Some(Key::KeyC),
        68 => Some(Key::KeyD),
        69 => Some(Key::KeyE),
        70 => Some(Key::KeyF),
        71 => Some(Key::KeyG),
        72 => Some(Key::KeyH),
        73 => Some(Key::KeyI),
        74 => Some(Key::KeyJ),
        75 => Some(Key::KeyK),
        76 => Some(Key::KeyL),
        77 => Some(Key::KeyM),
        78 => Some(Key::KeyN),
        79 => Some(Key::KeyO),
        80 => Some(Key::KeyP),
        81 => Some(Key::KeyQ),
        82 => Some(Key::KeyR),
        83 => Some(Key::KeyS),
        84 => Some(Key::KeyT),
        85 => Some(Key::KeyU),
        86 => Some(Key::KeyV),
        87 => Some(Key::KeyW),
        88 => Some(Key::KeyX),
        89 => Some(Key::KeyY),
        90 => Some(Key::KeyZ),
        91 => Some(Key::LogoLeft),
        92 => Some(Key::LogoRight),
        93 => Some(Key::ContextMenu),
        96 => Some(Key::Numpad0),
        97 => Some(Key::Numpad1),
        98 => Some(Key::Numpad2),
        99 => Some(Key::Numpad3),
        100 => Some(Key::Numpad4),
        101 => Some(Key::Numpad5),
        102 => Some(Key::Numpad6),
        103 => Some(Key::Numpad7),
        104 => Some(Key::Numpad8),
        105 => Some(Key::Numpad9),
        106 => Some(Key::NumpadMultiply),
        107 => Some(Key::NumpadAdd),
        109 => Some(Key::NumpadSubtract),
        110 => Some(Key::NumpadDecimal),
        111 => Some(Key::NumpadDivide),
        112 => Some(Key::F1),
        113 => Some(Key::F2),
        114 => Some(Key::F3),
        115 => Some(Key::F4),
        116 => Some(Key::F5),
        117 => Some(Key::F6),
        118 => Some(Key::F7),
        119 => Some(Key::F8),
        120 => Some(Key::F9),
        121 => Some(Key::F10),
        122 => Some(Key::F11),
        123 => Some(Key::F12),
        124 => Some(Key::F13),
        125 => Some(Key::F14),
        126 => Some(Key::F15),
        127 => Some(Key::F16),
        128 => Some(Key::F17),
        129 => Some(Key::F18),
        130 => Some(Key::F19),
        131 => Some(Key::F20),
        132 => Some(Key::F21),
        133 => Some(Key::F22),
        134 => Some(Key::F23),
        135 => Some(Key::F24),
        144 => Some(Key::NumLock),
        145 => Some(Key::ScrollLock),
        // As Firefox reports it.
        173 => Some(Key::Minus),
        186 => Some(Key::Semicolon),
        187 => Some(Key::Equal),
        188 => Some(Key::Comma),
        189 => Some(Key::Minus),
        190 => Some(Key::Period),
        191 => Some(Key::Slash),
        192 => Some(Key::Backquote),
        193 => Some(Key::IntlRo),
        219 => Some(Key::BracketLeft),
        220 => Some(Key::Backslash),
        221 => Some(Key::BracketRight),
        222 => Some(Key::Quote),
        // As Firefox reports it on macOS.
        224 => Some(Key::LogoLeft),
        226 => Some(Key::IntlBackslash),
        _ => None,
    }
}

/// The canonical native code of a key, if the platform has the key.
pub open spec fn spec_key_to_sc(key: Key) -> Option<u32> {
    match key {
        Key::Backquote => Some(192),
        Key::Backslash => Some(220),
        Key::BracketLeft => Some(219),
        Key::BracketRight => Some(221),
        Key::Comma => Some(188),
        Key::Digit0 => Some(48),
        Key::Digit1 => Some(49),
        Key::Digit2 => Some(50),
        Key::Digit3 => Some(51),
        Key::Digit4 => Some(52),
        Key::Digit5 => Some(53),
        Key::Digit6 => Some(54),
        Key::Digit7 => Some(55),
        Key::Digit8 => Some(56),
        Key::Digit9 => Some(57),
        Key::Equal => Some(187),
        Key::IntlBackslash => Some(226),
        Key::IntlRo => Some(193),
        Key::IntlYen => None,
        Key::KeyA => Some(65),
        Key::KeyB => Some(66),
        Key::KeyC => Some(67),
        Key::KeyD => Some(68),
        Key::KeyE => Some(69),
        Key::KeyF => Some(70),
        Key::KeyG => Some(71),
        Key::KeyH => Some(72),
        Key::KeyI => Some(73),
        Key::KeyJ => Some(74),
        Key::KeyK => Some(75),
        Key::KeyL => Some(76),
        Key::KeyM => Some(77),
        Key::KeyN => Some(78),
        Key::KeyO => Some(79),
        Key::KeyP => Some(80),
        Key::KeyQ => Some(81),
        Key::KeyR => Some(82),
        Key::KeyS => Some(83),
        Key::KeyT => Some(84),
        Key::KeyU => Some(85),
        Key::KeyV => Some(86),
        Key::KeyW => Some(87),
        Key::KeyX => Some(88),
        Key::KeyY => Some(89),
        Key::KeyZ => Some(90),
        Key::Minus => Some(189),
        Key::Period => Some(190),
        Key::Quote => Some(222),
        Key::Semicolon => Some(186),
        Key::Slash => Some(191),
        Key::AltLeft => Some(18),
        Key::AltRight => None,
        Key::ControlLeft => Some(17),
        Key::ControlRight => None,
        Key::LogoLeft => Some(91),
        Key::LogoRight => Some(92),
        Key::ShiftLeft => Some(16),
        Key::ShiftRight => None,
        Key::Backspace => Some(8),
        Key::CapsLock => Some(20),
        Key::ContextMenu => Some(93),
        Key::Enter => Some(13),
        Key::Space => Some(32),
        Key::Tab => Some(9),
        Key::Convert => Some(28),
        Key::KanaMode => Some(21),
        Key::NonConvert => Some(29),
        Key::ArrowDown => Some(40),
        Key::ArrowLeft => Some(37),
        Key::ArrowRight => Some(39),
        Key::ArrowUp => Some(38),
        Key::Delete => Some(46),
        Key::End => Some(35),
        Key::Home => Some(36),
        Key::Insert => Some(45),
        Key::PageDown => Some(34),
        Key::PageUp => Some(33),
        Key::NumLock => Some(144),
        Key::Numpad0 => Some(96),
        Key::Numpad1 => Some(97),
        Key::Numpad2 => Some(98),
        Key::Numpad3 => Some(99),
        Key::Numpad4 => Some(100),
        Key::Numpad5 => Some(101),
        Key::Numpad6 => Some(102),
        Key::Numpad7 => Some(103),
        Key::Numpad8 => Some(104),
        Key::Numpad9 => Some(105),
        Key::NumpadAdd => Some(107),
        Key::NumpadDecimal => Some(110),
        Key::NumpadDivide => Some(111),
        Key::NumpadEnter => None,
        Key::NumpadMultiply => Some(106),
        Key::NumpadSubtract => Some(109),
        Key::Escape => Some(27),
        Key::F1 => Some(112),
        Key::F2 => Some(113),
        Key::F3 => Some(114),
        Key::F4 => Some(115),
        Key::F5 => Some(116),
        Key::F6 => Some(117),
        Key::F7 => Some(118),
        Key::F8 => Some(119),
        Key::F9 => Some(120),
        Key::F10 => Some(121),
        Key::F11 => Some(122),
        Key::F12 => Some(123),
        Key::F13 => Some(124),
        Key::F14 => Some(125),
        Key::F15 => Some(126),
        Key::F16 => Some(127),
        Key::F17 => Some(128),
        Key::F18 => Some(129),
        Key::F19 => Some(130),
        Key::F20 => Some(131),
        Key::F21 => Some(132),
        Key::F22 => Some(133),
        Key::F23 => Some(134),
        Key::F24 => Some(135),
        Key::Help => Some(47),
        Key::Pause => Some(19),
        Key::PrintScreen => Some(44),
        Key::ScrollLock => Some(145),
    }
}

/// Translates a native code into a key. Every `u32` is accepted; a code that
/// the table does not hold gives `None`.
pub fn sc_to_key(sc: u32) -> (r: Option<Key>)
    ensures
        r == spec_sc_to_key(sc),
{
    match sc {
        8 => Some(Key::Backspace),
        9 => Some(Key::Tab),
        13 => Some(Key::Enter),
        16 => Some(Key::ShiftLeft),
        17 => Some(Key::ControlLeft),
        18 => Some(Key::AltLeft),
        19 => Some(Key::Pause),
        20 => Some(Key::CapsLock),
        21 => Some(Key::KanaMode),
        27 => Some(Key::Escape),
        28 => Some(Key::Convert),
        29 => Some(Key::NonConvert),
        32 => Some(Key::Space),
        33 => Some(Key::PageUp),
        34 => Some(Key::PageDown),
        35 => Some(Key::End),
        36 => Some(Key::Home),
        37 => Some(Key::ArrowLeft),
        38 => Some(Key::ArrowUp),
        39 => Some(Key::ArrowRight),
        40 => Some(Key::ArrowDown),
        44 => Some(Key::PrintScreen),
        45 => Some(Key::Insert),
        46 => Some(Key::Delete),
        47 => Some(Key::Help),
        48 => Some(Key::Digit0),
        49 => Some(Key::Digit1),
        50 => Some(Key::Digit2),
        51 => Some(Key::Digit3),
        52 => Some(Key::Digit4),
        53 => Some(Key::Digit5),
        54 => Some(Key::Digit6),
        55 => Some(Key::Digit7),
        56 => Some(Key::Digit8),
        57 => Some(Key::Digit9),
        // As Firefox reports it.
        59 => Some(Key::Semicolon),
        // As Firefox reports it.
        61 => Some(Key::Equal),
        65 => Some(Key::KeyA),
        66 => Some(Key::KeyB),
        67 => Some(Key::KeyC),
        68 => Some(Key::KeyD),
        69 => Some(Key::KeyE),
        70 => Some(Key::KeyF),
        71 => Some(Key::KeyG),
        72 => Some(Key::KeyH),
        73 => Some(Key::KeyI),
        74 => Some(Key::KeyJ),
        75 => Some(Key::KeyK),
        76 => Some(Key::KeyL),
        77 => Some(Key::KeyM),
        78 => Some(Key::KeyN),
        79 => Some(Key::KeyO),
        80 => Some(Key::KeyP),
        81 => Some(Key::KeyQ),
        82 => Some(Key::KeyR),
        83 => Some(Key::KeyS),
        84 => Some(Key::KeyT),
        85 => Some(Key::KeyU),
        86 => Some(Key::KeyV),
        87 => Some(Key::KeyW),
        88 => Some(Key::KeyX),
        89 => Some(Key::KeyY),
        90 => Some(Key::KeyZ),
        91 => Some(Key::LogoLeft),
        92 => Some(Key::LogoRight),
        93 => Some(Key::ContextMenu),
        96 => Some(Key::Numpad0),
        97 => Some(Key::Numpad1),
        98 => Some(Key::Numpad2),
        99 => Some(Key::Numpad3),
        100 => Some(Key::Numpad4),
        101 => Some(Key::Numpad5),
        102 => Some(Key::Numpad6),
        103 => Some(Key::Numpad7),
        104 => Some(Key::Numpad8),
        105 => Some(Key::Numpad9),
        106 => Some(Key::NumpadMultiply),
        107 => Some(Key::NumpadAdd),
        109 => Some(Key::NumpadSubtract),
        110 => Some(Key::NumpadDecimal),
        111 => Some(Key::NumpadDivide),
        112 => Some(Key::F1),
        113 => Some(Key::F2),
        114 => Some(Key::F3),
        115 => Some(Key::F4),
        116 => Some(Key::F5),
        117 => Some(Key::F6),
        118 => Some(Key::F7),
        119 => Some(Key::F8),
        120 => Some(Key::F9),
        121 => Some(Key::F10),
        122 => Some(Key::F11),
        123 => Some(Key::F12),
        124 => Some(Key::F13),
        125 => Some(Key::F14),
        126 => Some(Key::F15),
        127 => Some(Key::F16),
        128 => Some(Key::F17),
        129 => Some(Key::F18),
        130 => Some(Key::F19),
        131 => Some(Key::F20),
        132 => Some(Key::F21),
        133 => Some(Key::F22),
        134 => Some(Key::F23),
        135 => Some(Key::F24),
        144 => Some(Key::NumLock),
        145 => Some(Key::ScrollLock),
        // As Firefox reports it.
        173 => Some(Key::Minus),
        186 => Some(Key::Semicolon),
        187 => Some(Key::Equal),
        188 => Some(Key::Comma),
        189 => Some(Key::Minus),
        190 => Some(Key::Period),
        191 => Some(Key::Slash),
        192 => Some(Key::Backquote),
        193 => Some(Key::IntlRo),
        219 => Some(Key::BracketLeft),
        220 => Some(Key::Backslash),
        221 => Some(Key::BracketRight),
        222 => Some(Key::Quote),
        // As Firefox reports it on macOS.
        224 => Some(Key::LogoLeft),
        226 => Some(Key::IntlBackslash),
        _ => None,
    }
}

/// Translates a key into its canonical native code, or `None` where the
/// platform has no such key. The code that is given decodes to the key.
pub fn key_to_sc(key: Key) -> (r: Option<u32>)
    ensures
        r == spec_key_to_sc(key),
        r matches Some(sc) ==> spec_sc_to_key(sc) == Some(key),
{
    proof {
        if spec_key_to_sc(key) is Some {
            lemma_round_trip(key);
        }
    }
    match key {
        Key::Backquote => Some(192),
        Key::Backslash => Some(220),
        Key::BracketLeft => Some(219),
        Key::BracketRight => Some(221),
        Key::Comma => Some(188),
        Key::Digit0 => Some(48),
        Key::Digit1 => Some(49),
        Key::Digit2 => Some(50),
        Key::Digit3 => Some(51),
        Key::Digit4 => Some(52),
        Key::Digit5 => Some(53),
        Key::Digit6 => Some(54),
        Key::Digit7 => Some(55),
        Key::Digit8 => Some(56),
        Key::Digit9 => Some(57),
        Key::Equal => Some(187),
        Key::IntlBackslash => Some(226),
        Key::IntlRo => Some(193),
        Key::IntlYen => None,
        Key::KeyA => Some(65),
        Key::KeyB => Some(66),
        Key::KeyC => Some(67),
        Key::KeyD => Some(68),
        Key::KeyE => Some(69),
        Key::KeyF => Some(70),
        Key::KeyG => Some(71),
        Key::KeyH => Some(72),
        Key::KeyI => Some(73),
        Key::KeyJ => Some(74),
        Key::KeyK => Some(75),
        Key::KeyL => Some(76),
        Key::KeyM => Some(77),
        Key::KeyN => Some(78),
        Key::KeyO => Some(79),
        Key::KeyP => Some(80),
        Key::KeyQ => Some(81),
        Key::KeyR => Some(82),
        Key::KeyS => Some(83),
        Key::KeyT => Some(84),
        Key::KeyU => Some(85),
        Key::KeyV => Some(86),
        Key::KeyW => Some(87),
        Key::KeyX => Some(88),
        Key::KeyY => Some(89),
        Key::KeyZ => Some(90),
        Key::Minus => Some(189),
        Key::Period => Some(190),
        Key::Quote => Some(222),
        Key::Semicolon => Some(186),
        Key::Slash => Some(191),
        Key::AltLeft => Some(18),
        Key::AltRight => None,
        Key::ControlLeft => Some(17),
        Key::ControlRight => None,
        Key::LogoLeft => Some(91),
        Key::LogoRight => Some(92),
        Key::ShiftLeft => Some(16),
        Key::ShiftRight => None,
        Key::Backspace => Some(8),
        Key::CapsLock => Some(20),
        Key::ContextMenu => Some(93),
        Key::Enter => Some(13),
        Key::Space => Some(32),
        Key::Tab => Some(9),
        Key::Convert => Some(28),
        Key::KanaMode => Some(21),
        Key::NonConvert => Some(29),
        Key::ArrowDown => Some(40),
        Key::ArrowLeft => Some(37),
        Key::ArrowRight => Some(39),
        Key::ArrowUp => Some(38),
        Key::Delete => Some(46),
        Key::End => Some(35),
        Key::Home => Some(36),
        Key::Insert => Some(45),
        Key::PageDown => Some(34),
        Key::PageUp => Some(33),
        Key::NumLock => Some(144),
        Key::Numpad0 => Some(96),
        Key::Numpad1 => Some(97),
        Key::Numpad2 => Some(98),
        Key::Numpad3 => Some(99),
        Key::Numpad4 => Some(100),
        Key::Numpad5 => Some(101),
        Key::Numpad6 => Some(102),
        Key::Numpad7 => Some(103),
        Key::Numpad8 => Some(104),
        Key::Numpad9 => Some(105),
        Key::NumpadAdd => Some(107),
        Key::NumpadDecimal => Some(110),
        Key::NumpadDivide => Some(111),
        Key::NumpadEnter => None,
        Key::NumpadMultiply => Some(106),
        Key::NumpadSubtract => Some(109),
        Key::Escape => Some(27),
        Key::F1 => Some(112),
        Key::F2 => Some(113),
        Key::F3 => Some(114),
        Key::F4 => Some(115),
        Key::F5 => Some(116),
        Key::F6 => Some(117),
        Key::F7 => Some(118),
        Key::F8 => Some(119),
        Key::F9 => Some(120),
        Key::F10 => Some(121),
        Key::F11 => Some(122),
        Key::F12 => Some(123),
        Key::F13 => Some(124),
        Key::F14 => Some(125),
        Key::F15 => Some(126),
        Key::F16 => Some(127),
        Key::F17 => Some(128),
        Key::F18 => Some(129),
        Key::F19 => Some(130),
        Key::F20 => Some(131),
        Key::F21 => Some(132),
        Key::F22 => Some(133),
        Key::F23 => Some(134),
        Key::F24 => Some(135),
        Key::Help => Some(47),
        Key::Pause => Some(19),
        Key::PrintScreen => Some(44),
        Key::ScrollLock => Some(145),
    }
}

/// Decoding the canonical code of a key gives the key back.
pub proof fn lemma_round_trip(key: Key)
    requires
        spec_key_to_sc(key) is Some,
    ensures
        spec_sc_to_key(spec_key_to_sc(key).unwrap()) == Some(key),
{
}

/// No code above 16 bits names a key.
pub proof fn lemma_codes_fit_16_bits(sc: u32)
    requires
        spec_sc_to_key(sc) is Some,
    ensures
        sc <= 0xffff,
{
}

/// The invalid code names no key, and no key is encoded as it.
pub proof fn lemma_invalid_code(key: Key)
    ensures
        spec_sc_to_key(SC_INVALID) is None,
        spec_key_to_sc(key) != Some(SC_INVALID),
{
}

} // verus!
