use key_names::scancode::linux;
use key_names::{Key, NativeKeyCode, PhysicalKey};
use winit::keyboard as wk;
use winit::keyboard::KeyCode;
use winit::platform::scancode::PhysicalKeyExtScancode;

/// Every key with the key code that winit has for it.
const PAIRS: [(Key, KeyCode); 123] = [
    (Key::Backquote, KeyCode::Backquote),
    (Key::Backslash, KeyCode::Backslash),
    (Key::BracketLeft, KeyCode::BracketLeft),
    (Key::BracketRight, KeyCode::BracketRight),
    (Key::Comma, KeyCode::Comma),
    (Key::Digit0, KeyCode::Digit0),
    (Key::Digit1, KeyCode::Digit1),
    (Key::Digit2, KeyCode::Digit2),
    (Key::Digit3, KeyCode::Digit3),
    (Key::Digit4, KeyCode::Digit4),
    (Key::Digit5, KeyCode::Digit5),
    (Key::Digit6, KeyCode::Digit6),
    (Key::Digit7, KeyCode::Digit7),
    (Key::Digit8, KeyCode::Digit8),
    (Key::Digit9, KeyCode::Digit9),
    (Key::Equal, KeyCode::Equal),
    (Key::IntlBackslash, KeyCode::IntlBackslash),
    (Key::IntlRo, KeyCode::IntlRo),
    (Key::IntlYen, KeyCode::IntlYen),
    (Key::KeyA, KeyCode::KeyA),
    (Key::KeyB, KeyCode::KeyB),
    (Key::KeyC, KeyCode::KeyC),
    (Key::KeyD, KeyCode::KeyD),
    (Key::KeyE, KeyCode::KeyE),
    (Key::KeyF, KeyCode::KeyF),
    (Key::KeyG, KeyCode::KeyG),
    (Key::KeyH, KeyCode::KeyH),
    (Key::KeyI, KeyCode::KeyI),
    (Key::KeyJ, KeyCode::KeyJ),
    (Key::KeyK, KeyCode::KeyK),
    (Key::KeyL, KeyCode::KeyL),
    (Key::KeyM, KeyCode::KeyM),
    (Key::KeyN, KeyCode::KeyN),
    (Key::KeyO, KeyCode::KeyO),
    (Key::KeyP, KeyCode::KeyP),
    (Key::KeyQ, KeyCode::KeyQ),
    (Key::KeyR, KeyCode::KeyR),
    (Key::KeyS, KeyCode::KeyS),
    (Key::KeyT, KeyCode::KeyT),
    (Key::KeyU, KeyCode::KeyU),
    (Key::KeyV, KeyCode::KeyV),
    (Key::KeyW, KeyCode::KeyW),
    (Key::KeyX, KeyCode::KeyX),
    (Key::KeyY, KeyCode::KeyY),
    (Key::KeyZ, KeyCode::KeyZ),
    (Key::Minus, KeyCode::Minus),
    (Key::Period, KeyCode::Period),
    (Key::Quote, KeyCode::Quote),
    (Key::Semicolon, KeyCode::Semicolon),
    (Key::Slash, KeyCode::Slash),
    (Key::AltLeft, KeyCode::AltLeft),
    (Key::AltRight, KeyCode::AltRight),
    (Key::ControlLeft, KeyCode::ControlLeft),
    (Key::ControlRight, KeyCode::ControlRight),
    (Key::LogoLeft, KeyCode::SuperLeft),
    (Key::LogoRight, KeyCode::SuperRight),
    (Key::ShiftLeft, KeyCode::ShiftLeft),
    (Key::ShiftRight, KeyCode::ShiftRight),
    (Key::Backspace, KeyCode::Backspace),
    (Key::CapsLock, KeyCode::CapsLock),
    (Key::ContextMenu, KeyCode::ContextMenu),
    (Key::Enter, KeyCode::Enter),
    (Key::Space, KeyCode::Space),
    (Key::Tab, KeyCode::Tab),
    (Key::Convert, KeyCode::Convert),
    (Key::KanaMode, KeyCode::KanaMode),
    (Key::NonConvert, KeyCode::NonConvert),
    (Key::ArrowDown, KeyCode::ArrowDown),
    (Key::ArrowLeft, KeyCode::ArrowLeft),
    (Key::ArrowRight, KeyCode::ArrowRight),
    (Key::ArrowUp, KeyCode::ArrowUp),
    (Key::Delete, KeyCode::Delete),
    (Key::End, KeyCode::End),
    (Key::Home, KeyCode::Home),
    (Key::Insert, KeyCode::Insert),
    (Key::PageDown, KeyCode::PageDown),
    (Key::PageUp, KeyCode::PageUp),
    (Key::NumLock, KeyCode::NumLock),
    (Key::Numpad0, KeyCode::Numpad0),
    (Key::Numpad1, KeyCode::Numpad1),
    (Key::Numpad2, KeyCode::Numpad2),
    (Key::Numpad3, KeyCode::Numpad3),
    (Key::Numpad4, KeyCode::Numpad4),
    (Key::Numpad5, KeyCode::Numpad5),
    (Key::Numpad6, KeyCode::Numpad6),
    (Key::Numpad7, KeyCode::Numpad7),
    (Key::Numpad8, KeyCode::Numpad8),
    (Key::Numpad9, KeyCode::Numpad9),
    (Key::NumpadAdd, KeyCode::NumpadAdd),
    (Key::NumpadDecimal, KeyCode::NumpadDecimal),
    (Key::NumpadDivide, KeyCode::NumpadDivide),
    (Key::NumpadEnter, KeyCode::NumpadEnter),
    (Key::NumpadMultiply, KeyCode::NumpadMultiply),
    (Key::NumpadSubtract, KeyCode::NumpadSubtract),
    (Key::Escape, KeyCode::Escape),
    (Key::F1, KeyCode::F1),
    (Key::F2, KeyCode::F2),
    (Key::F3, KeyCode::F3),
    (Key::F4, KeyCode::F4),
    (Key::F5, KeyCode::F5),
    (Key::F6, KeyCode::F6),
    (Key::F7, KeyCode::F7),
    (Key::F8, KeyCode::F8),
    (Key::F9, KeyCode::F9),
    (Key::F10, KeyCode::F10),
    (Key::F11, KeyCode::F11),
    (Key::F12, KeyCode::F12),
    (Key::F13, KeyCode::F13),
    (Key::F14, KeyCode::F14),
    (Key::F15, KeyCode::F15),
    (Key::F16, KeyCode::F16),
    (Key::F17, KeyCode::F17),
    (Key::F18, KeyCode::F18),
    (Key::F19, KeyCode::F19),
    (Key::F20, KeyCode::F20),
    (Key::F21, KeyCode::F21),
    (Key::F22, KeyCode::F22),
    (Key::F23, KeyCode::F23),
    (Key::F24, KeyCode::F24),
    (Key::Help, KeyCode::Help),
    (Key::Pause, KeyCode::Pause),
    (Key::PrintScreen, KeyCode::PrintScreen),
    (Key::ScrollLock, KeyCode::ScrollLock),
];

#[test]
fn debug_listing_is_the_one_of_winit() {
    let codes = [
        (NativeKeyCode::Unidentified, wk::NativeKeyCode::Unidentified),
        (NativeKeyCode::Android(0x12345), wk::NativeKeyCode::Android(0x12345)),
        (NativeKeyCode::MacOS(0x7f), wk::NativeKeyCode::MacOS(0x7f)),
        (NativeKeyCode::Windows(0xe05b), wk::NativeKeyCode::Windows(0xe05b)),
        (NativeKeyCode::Xkb(0x1e), wk::NativeKeyCode::Xkb(0x1e)),
        (NativeKeyCode::Xkb(u32::MAX), wk::NativeKeyCode::Xkb(u32::MAX)),
    ];
    for (ours, theirs) in codes {
        assert_eq!(ours.debug_name(), format!("{:?}", theirs));
        assert_eq!(
            PhysicalKey::Unidentified(ours).debug_name(),
            format!("{:?}", wk::PhysicalKey::Unidentified(theirs))
        );
    }
    for (key, code) in PAIRS {
        if key != Key::LogoLeft && key != Key::LogoRight {
            assert_eq!(PhysicalKey::Code(key).debug_name(), format!("{:?}", wk::PhysicalKey::Code(code)));
        }
    }
}

#[test]
fn key_names_are_those_of_winit_but_for_the_logo_keys() {
    for (key, code) in PAIRS {
        if key == Key::LogoLeft || key == Key::LogoRight {
            assert_ne!(key.name(), format!("{:?}", code));
        } else {
            assert_eq!(key.name(), format!("{:?}", code));
        }
    }
    assert_eq!(Key::LogoLeft.name(), "LogoLeft");
    assert_eq!(Key::LogoRight.name(), "LogoRight");
}

#[test]
fn linux_table_encodes_as_winit_does() {
    for (key, code) in PAIRS {
        match code.to_scancode() {
            Some(sc) => assert_eq!(linux::key_to_sc(key), Some(sc), "{:?}", key),
            None => assert_eq!(key, Key::Help),
        }
    }
    assert_eq!(linux::key_to_sc(Key::Help), Some(138));
}

#[test]
fn linux_table_decodes_as_winit_does() {
    for sc in 0..=0xffffu32 {
        match KeyCode::from_scancode(sc) {
            wk::PhysicalKey::Code(code) => match PAIRS.iter().find(|(_, c)| *c == code) {
                Some((key, _)) => assert_eq!(linux::sc_to_key(sc), Some(*key), "{}", sc),
                None => assert_eq!(linux::sc_to_key(sc), None, "{}", sc),
            },
            wk::PhysicalKey::Unidentified(_) => {
                if sc == 138 {
                    assert_eq!(linux::sc_to_key(sc), Some(Key::Help));
                } else {
                    assert_eq!(linux::sc_to_key(sc), None, "{}", sc);
                }
            }
        }
    }
}

#[test]
fn bare_codes_have_the_scancodes_that_winit_gives_them() {
    let cases = [
        (NativeKeyCode::Unidentified, wk::NativeKeyCode::Unidentified),
        (NativeKeyCode::Xkb(0), wk::NativeKeyCode::Xkb(0)),
        (NativeKeyCode::Xkb(200), wk::NativeKeyCode::Xkb(200)),
        (NativeKeyCode::Xkb(u32::MAX), wk::NativeKeyCode::Xkb(u32::MAX)),
        (NativeKeyCode::Windows(30), wk::NativeKeyCode::Windows(30)),
        (NativeKeyCode::MacOS(30), wk::NativeKeyCode::MacOS(30)),
        (NativeKeyCode::Android(30), wk::NativeKeyCode::Android(30)),
    ];
    for (ours, theirs) in cases {
        assert_eq!(
            key_names::linux::to_scancode(PhysicalKey::Unidentified(ours)),
            wk::PhysicalKey::Unidentified(theirs).to_scancode()
        );
    }
}
