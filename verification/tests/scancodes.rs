use key_names::scancode::{self, linux, macos, web, windows};
use key_names::{decode_scancode, encode_scancode, Key, Platform};

const ALL_KEYS: [Key; 123] = [
    Key::Backquote,
    Key::Backslash,
    Key::BracketLeft,
    Key::BracketRight,
    Key::Comma,
    Key::Digit0,
    Key::Digit1,
    Key::Digit2,
    Key::Digit3,
    Key::Digit4,
    Key::Digit5,
    Key::Digit6,
    Key::Digit7,
    Key::Digit8,
    Key::Digit9,
    Key::Equal,
    Key::IntlBackslash,
    Key::IntlRo,
    Key::IntlYen,
    Key::KeyA,
    Key::KeyB,
    Key::KeyC,
    Key::KeyD,
    Key::KeyE,
    Key::KeyF,
    Key::KeyG,
    Key::KeyH,
    Key::KeyI,
    Key::KeyJ,
    Key::KeyK,
    Key::KeyL,
    Key::KeyM,
    Key::KeyN,
    Key::KeyO,
    Key::KeyP,
    Key::KeyQ,
    Key::KeyR,
    Key::KeyS,
    Key::KeyT,
    Key::KeyU,
    Key::KeyV,
    Key::KeyW,
    Key::KeyX,
    Key::KeyY,
    Key::KeyZ,
    Key::Minus,
    Key::Period,
    Key::Quote,
    Key::Semicolon,
    Key::Slash,
    Key::AltLeft,
    Key::AltRight,
    Key::ControlLeft,
    Key::ControlRight,
    Key::LogoLeft,
    Key::LogoRight,
    Key::ShiftLeft,
    Key::ShiftRight,
    Key::Backspace,
    Key::CapsLock,
    Key::ContextMenu,
    Key::Enter,
    Key::Space,
    Key::Tab,
    Key::Convert,
    Key::KanaMode,
    Key::NonConvert,
    Key::ArrowDown,
    Key::ArrowLeft,
    Key::ArrowRight,
    Key::ArrowUp,
    Key::Delete,
    Key::End,
    Key::Home,
    Key::Insert,
    Key::PageDown,
    Key::PageUp,
    Key::NumLock,
    Key::Numpad0,
    Key::Numpad1,
    Key::Numpad2,
    Key::Numpad3,
    Key::Numpad4,
    Key::Numpad5,
    Key::Numpad6,
    Key::Numpad7,
    Key::Numpad8,
    Key::Numpad9,
    Key::NumpadAdd,
    Key::NumpadDecimal,
    Key::NumpadDivide,
    Key::NumpadEnter,
    Key::NumpadMultiply,
    Key::NumpadSubtract,
    Key::Escape,
    Key::F1,
    Key::F2,
    Key::F3,
    Key::F4,
    Key::F5,
    Key::F6,
    Key::F7,
    Key::F8,
    Key::F9,
    Key::F10,
    Key::F11,
    Key::F12,
    Key::F13,
    Key::F14,
    Key::F15,
    Key::F16,
    Key::F17,
    Key::F18,
    Key::F19,
    Key::F20,
    Key::F21,
    Key::F22,
    Key::F23,
    Key::F24,
    Key::Help,
    Key::Pause,
    Key::PrintScreen,
    Key::ScrollLock,
];

const PLATFORMS: [Platform; 4] = [Platform::Linux, Platform::MacOs, Platform::Windows, Platform::Web];

#[test]
fn all_keys_are_distinct() {
    for (i, a) in ALL_KEYS.iter().enumerate() {
        for b in &ALL_KEYS[i + 1..] {
            assert_ne!(a, b);
        }
    }
}

#[test]
fn round_trip_holds_for_every_key_on_every_platform() {
    for platform in PLATFORMS {
        for key in ALL_KEYS {
            if let Some(code) = encode_scancode(platform, key) {
                assert_eq!(decode_scancode(platform, code), Some(key), "{:?} {:?}", platform, key);
            }
        }
    }
}

#[test]
fn decode_accepts_every_16_bit_code() {
    for platform in PLATFORMS {
        let mut known = 0;
        for code in 0..=0xffffu32 {
            if decode_scancode(platform, code).is_some() {
                known += 1;
            }
        }
        assert!(known >= 100, "{:?}", platform);
    }
}

#[test]
fn decode_gives_none_beyond_16_bits() {
    for platform in PLATFORMS {
        for code in [0x1_0000u32, 0x1_001e, 0xe0_0048, 0x8000_0000, u32::MAX] {
            assert_eq!(decode_scancode(platform, code), None);
        }
    }
}

#[test]
fn every_decoded_key_is_one_of_the_keys() {
    for platform in PLATFORMS {
        for code in 0..=0xffffu32 {
            if let Some(key) = decode_scancode(platform, code) {
                assert!(ALL_KEYS.contains(&key));
            }
        }
    }
}

#[test]
fn encode_never_gives_one_code_to_two_keys() {
    for platform in PLATFORMS {
        let mut seen: Vec<u32> = Vec::new();
        for key in ALL_KEYS {
            if let Some(code) = encode_scancode(platform, key) {
                assert!(!seen.contains(&code), "{:?} {:?}", platform, key);
                seen.push(code);
            }
        }
    }
}

#[test]
fn number_of_keys_that_each_platform_has() {
    let count = |platform: Platform| ALL_KEYS.iter().filter(|k| encode_scancode(platform, **k).is_some()).count();
    assert_eq!(count(Platform::Linux), 123);
    assert_eq!(count(Platform::MacOs), 107);
    assert_eq!(count(Platform::Windows), 122);
    assert_eq!(count(Platform::Web), 118);
}

#[test]
fn number_of_codes_that_each_platform_knows() {
    let count = |platform: Platform| (0..=0xffffu32).filter(|c| decode_scancode(platform, *c).is_some()).count();
    assert_eq!(count(Platform::Linux), 123);
    assert_eq!(count(Platform::MacOs), 110);
    assert_eq!(count(Platform::Windows), 124);
    assert_eq!(count(Platform::Web), 122);
}

#[test]
fn invalid_scancode_names_no_key() {
    assert_eq!(scancode::invalid_scancode(Platform::Linux), 0);
    assert_eq!(scancode::invalid_scancode(Platform::MacOs), 0xffff);
    assert_eq!(scancode::invalid_scancode(Platform::Windows), 0);
    assert_eq!(scancode::invalid_scancode(Platform::Web), 0);
    assert_eq!(linux::SC_INVALID, 0);
    assert_eq!(macos::SC_INVALID, 0xffff);
    assert_eq!(windows::SC_INVALID, 0);
    assert_eq!(web::SC_INVALID, 0);
    for platform in PLATFORMS {
        let invalid = scancode::invalid_scancode(platform);
        assert_eq!(decode_scancode(platform, invalid), None);
        for key in ALL_KEYS {
            assert_ne!(encode_scancode(platform, key), Some(invalid));
        }
    }
}

#[test]
fn linux_key_a() {
    assert_eq!(decode_scancode(Platform::Linux, 0x1e), Some(Key::KeyA));
    assert_eq!(encode_scancode(Platform::Linux, Key::KeyA), Some(0x1e));
    assert_eq!(linux::sc_to_key(0x1e), Some(Key::KeyA));
    assert_eq!(linux::key_to_sc(Key::KeyA), Some(0x1e));
}

#[test]
fn linux_table_samples() {
    assert_eq!(linux::sc_to_key(0), None);
    assert_eq!(linux::sc_to_key(1), Some(Key::Escape));
    assert_eq!(linux::sc_to_key(84), None);
    assert_eq!(linux::sc_to_key(99), Some(Key::PrintScreen));
    assert_eq!(linux::sc_to_key(110), Some(Key::Insert));
    assert_eq!(linux::sc_to_key(119), Some(Key::Pause));
    assert_eq!(linux::sc_to_key(126), Some(Key::LogoRight));
    assert_eq!(linux::sc_to_key(138), Some(Key::Help));
    assert_eq!(linux::sc_to_key(183), Some(Key::F13));
    assert_eq!(linux::sc_to_key(194), Some(Key::F24));
    assert_eq!(linux::sc_to_key(195), None);
    assert_eq!(linux::sc_to_key(240), None);
    assert_eq!(linux::key_to_sc(Key::NumpadEnter), Some(96));
    assert_eq!(linux::key_to_sc(Key::IntlYen), Some(124));
    for key in ALL_KEYS {
        assert!(linux::key_to_sc(key).is_some());
    }
}

#[test]
fn macos_key_a_is_code_zero() {
    assert_eq!(decode_scancode(Platform::MacOs, 0x00), Some(Key::KeyA));
    assert_eq!(encode_scancode(Platform::MacOs, Key::KeyA), Some(0x00));
    assert_eq!(macos::sc_to_key(0x00), Some(Key::KeyA));
    assert_eq!(macos::key_to_sc(Key::KeyA), Some(0x00));
}

#[test]
fn macos_has_no_insert() {
    assert_eq!(encode_scancode(Platform::MacOs, Key::Insert), None);
    assert_eq!(macos::key_to_sc(Key::Insert), None);
}

#[test]
fn macos_keys_that_do_not_exist() {
    for key in [Key::Insert, Key::NumLock, Key::PrintScreen, Key::ScrollLock, Key::Pause, Key::LogoRight] {
        assert_eq!(encode_scancode(Platform::MacOs, key), None, "{:?}", key);
    }
    for key in [Key::F21, Key::F22, Key::F23, Key::F24, Key::ContextMenu, Key::IntlBackslash, Key::IntlRo, Key::Convert, Key::KanaMode, Key::NonConvert] {
        assert_eq!(encode_scancode(Platform::MacOs, key), None, "{:?}", key);
    }
}

#[test]
fn macos_codes_that_are_only_decoded() {
    assert_eq!(macos::sc_to_key(0x0a), Some(Key::Backquote));
    assert_eq!(macos::key_to_sc(Key::Backquote), Some(0x32));
    assert_eq!(macos::sc_to_key(0x32), Some(Key::Backquote));
    assert_eq!(macos::sc_to_key(0x36), Some(Key::LogoRight));
    assert_eq!(macos::sc_to_key(0x47), Some(Key::NumLock));
    assert_eq!(macos::sc_to_key(0x72), Some(Key::Help));
    assert_eq!(macos::sc_to_key(0x34), None);
    assert_eq!(macos::sc_to_key(0x7f), None);
    assert_eq!(macos::sc_to_key(0xffff), None);
}

#[test]
fn macos_table_samples() {
    assert_eq!(macos::key_to_sc(Key::Enter), Some(0x24));
    assert_eq!(macos::key_to_sc(Key::Escape), Some(0x35));
    assert_eq!(macos::key_to_sc(Key::LogoLeft), Some(0x37));
    assert_eq!(macos::key_to_sc(Key::CapsLock), Some(0x39));
    assert_eq!(macos::key_to_sc(Key::F1), Some(0x7a));
    assert_eq!(macos::key_to_sc(Key::F20), Some(0x5a));
    assert_eq!(macos::key_to_sc(Key::ArrowUp), Some(0x7e));
    assert_eq!(macos::key_to_sc(Key::Delete), Some(0x75));
    assert_eq!(macos::key_to_sc(Key::Backspace), Some(0x33));
    assert_eq!(macos::key_to_sc(Key::Digit5), Some(0x17));
    assert_eq!(macos::key_to_sc(Key::Digit6), Some(0x16));
}

#[test]
fn windows_extended_prefix_tells_arrow_from_numpad() {
    assert_eq!(decode_scancode(Platform::Windows, 0xe048), Some(Key::ArrowUp));
    assert_eq!(decode_scancode(Platform::Windows, 0x48), Some(Key::Numpad8));
    assert_eq!(encode_scancode(Platform::Windows, Key::ArrowUp), Some(0xe048));
    assert_eq!(encode_scancode(Platform::Windows, Key::Numpad8), Some(0x48));
}

#[test]
fn windows_extended_and_plain_codes_differ() {
    let pairs = [
        (0xe01c, Key::NumpadEnter, 0x1c, Key::Enter),
        (0xe01d, Key::ControlRight, 0x1d, Key::ControlLeft),
        (0xe038, Key::AltRight, 0x38, Key::AltLeft),
        (0xe035, Key::NumpadDivide, 0x35, Key::Slash),
        (0xe047, Key::Home, 0x47, Key::Numpad7),
        (0xe049, Key::PageUp, 0x49, Key::Numpad9),
        (0xe04b, Key::ArrowLeft, 0x4b, Key::Numpad4),
        (0xe04d, Key::ArrowRight, 0x4d, Key::Numpad6),
        (0xe04f, Key::End, 0x4f, Key::Numpad1),
        (0xe050, Key::ArrowDown, 0x50, Key::Numpad2),
        (0xe051, Key::PageDown, 0x51, Key::Numpad3),
        (0xe052, Key::Insert, 0x52, Key::Numpad0),
        (0xe053, Key::Delete, 0x53, Key::NumpadDecimal),
    ];
    for (extended, extended_key, plain, plain_key) in pairs {
        assert_eq!(windows::sc_to_key(extended), Some(extended_key));
        assert_eq!(windows::sc_to_key(plain), Some(plain_key));
        assert_eq!(windows::key_to_sc(extended_key), Some(extended));
        assert_eq!(windows::key_to_sc(plain_key), Some(plain));
    }
}

#[test]
fn windows_pause_and_print_screen_have_two_codes() {
    assert_eq!(windows::key_to_sc(Key::PrintScreen), Some(0xe037));
    assert_eq!(windows::sc_to_key(0xe037), Some(Key::PrintScreen));
    assert_eq!(windows::sc_to_key(0x54), Some(Key::PrintScreen));
    assert_eq!(windows::key_to_sc(Key::Pause), Some(0x45));
    assert_eq!(windows::sc_to_key(0x45), Some(Key::Pause));
    assert_eq!(windows::sc_to_key(0xe046), Some(Key::Pause));
    assert_eq!(windows::key_to_sc(Key::NumLock), Some(0xe045));
    assert_eq!(windows::key_to_sc(Key::ScrollLock), Some(0x46));
}

#[test]
fn decoding_then_encoding_need_not_give_the_code_back() {
    let key = decode_scancode(Platform::Windows, 0x54).unwrap();
    assert_eq!(encode_scancode(Platform::Windows, key), Some(0xe037));
    let key = decode_scancode(Platform::MacOs, 0x0a).unwrap();
    assert_eq!(encode_scancode(Platform::MacOs, key), Some(0x32));
    let key = decode_scancode(Platform::MacOs, 0x47).unwrap();
    assert_eq!(encode_scancode(Platform::MacOs, key), None);
    let key = decode_scancode(Platform::Web, 59).unwrap();
    assert_eq!(encode_scancode(Platform::Web, key), Some(186));
}

#[test]
fn windows_table_samples() {
    assert_eq!(windows::sc_to_key(0), None);
    assert_eq!(windows::sc_to_key(0x1e), Some(Key::KeyA));
    assert_eq!(windows::sc_to_key(0xe01e), None);
    assert_eq!(windows::sc_to_key(0xe05b), Some(Key::LogoLeft));
    assert_eq!(windows::sc_to_key(0xe05c), Some(Key::LogoRight));
    assert_eq!(windows::sc_to_key(0xe05d), Some(Key::ContextMenu));
    assert_eq!(windows::sc_to_key(0x76), Some(Key::F24));
    assert_eq!(windows::sc_to_key(0x7d), Some(Key::IntlYen));
    assert_eq!(windows::key_to_sc(Key::Help), None);
    assert_eq!(windows::key_to_sc(Key::Convert), Some(0x79));
    assert_eq!(windows::key_to_sc(Key::KanaMode), Some(0x70));
    assert_eq!(windows::key_to_sc(Key::NonConvert), Some(0x7b));
}

#[test]
fn web_table_samples() {
    assert_eq!(web::sc_to_key(0), None);
    assert_eq!(web::sc_to_key(65), Some(Key::KeyA));
    assert_eq!(web::sc_to_key(90), Some(Key::KeyZ));
    assert_eq!(web::sc_to_key(48), Some(Key::Digit0));
    assert_eq!(web::sc_to_key(13), Some(Key::Enter));
    assert_eq!(web::sc_to_key(16), Some(Key::ShiftLeft));
    assert_eq!(web::sc_to_key(112), Some(Key::F1));
    assert_eq!(web::sc_to_key(135), Some(Key::F24));
    assert_eq!(web::sc_to_key(59), Some(Key::Semicolon));
    assert_eq!(web::sc_to_key(186), Some(Key::Semicolon));
    assert_eq!(web::sc_to_key(61), Some(Key::Equal));
    assert_eq!(web::sc_to_key(173), Some(Key::Minus));
    assert_eq!(web::sc_to_key(224), Some(Key::LogoLeft));
    assert_eq!(web::key_to_sc(Key::LogoLeft), Some(91));
    for key in [Key::ShiftRight, Key::ControlRight, Key::AltRight, Key::NumpadEnter, Key::IntlYen] {
        assert_eq!(web::key_to_sc(key), None);
    }
}

#[test]
fn one_code_means_different_keys_on_different_platforms() {
    assert_eq!(decode_scancode(Platform::Linux, 0x1e), Some(Key::KeyA));
    assert_eq!(decode_scancode(Platform::Windows, 0x1e), Some(Key::KeyA));
    assert_eq!(decode_scancode(Platform::MacOs, 0x1e), Some(Key::BracketRight));
    assert_eq!(decode_scancode(Platform::Web, 0x1e), None);
}

#[test]
fn key_names_are_the_variants_names() {
    for key in ALL_KEYS {
        assert_eq!(key.name(), format!("{:?}", key));
    }
    assert_eq!(Key::KeyA.name(), "KeyA");
    assert_eq!(Key::NumpadSubtract.name(), "NumpadSubtract");
    assert_eq!(Key::F24.name(), "F24");
}
