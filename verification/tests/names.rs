use key_names::names::{curated_key_name, os_specific_key_name};
use key_names::{
    key_display_name, key_name, linux, macos, physical_key_name, scancode_display_name, web, windows, Key, NamedKey,
    NativeKey, NativeKeyCode, PhysicalKey, Platform, VirtualKey,
};

const PLATFORMS: [Platform; 4] = [Platform::Linux, Platform::MacOs, Platform::Windows, Platform::Web];

fn named(key: NamedKey) -> VirtualKey {
    VirtualKey::Named(key)
}

#[test]
fn arrows_are_called_by_direction_everywhere() {
    for platform in PLATFORMS {
        assert_eq!(key_name(platform, named(NamedKey::ArrowDown)), "Down");
        assert_eq!(key_name(platform, named(NamedKey::ArrowLeft)), "Left");
        assert_eq!(key_name(platform, named(NamedKey::ArrowRight)), "Right");
        assert_eq!(key_name(platform, named(NamedKey::ArrowUp)), "Up");
    }
}

#[test]
fn the_logo_key_has_a_name_on_each_platform() {
    assert_eq!(key_name(Platform::Linux, named(NamedKey::Super)), "Super");
    assert_eq!(key_name(Platform::MacOs, named(NamedKey::Super)), "Command");
    assert_eq!(key_name(Platform::Windows, named(NamedKey::Super)), "Windows");
    assert_eq!(key_name(Platform::Web, named(NamedKey::Super)), "Super");
}

#[test]
fn named_keys_on_macos() {
    let p = Platform::MacOs;
    assert_eq!(key_name(p, named(NamedKey::Alt)), "Option");
    assert_eq!(key_name(p, named(NamedKey::AltGraph)), "Right Option");
    assert_eq!(key_name(p, named(NamedKey::Backspace)), "Delete");
    assert_eq!(key_name(p, named(NamedKey::Delete)), "Forward Delete");
    assert_eq!(key_name(p, named(NamedKey::Enter)), "Return");
    assert_eq!(key_name(p, named(NamedKey::Escape)), "Esc");
}

#[test]
fn named_keys_elsewhere_keep_their_own_names() {
    for p in [Platform::Linux, Platform::Windows, Platform::Web] {
        assert_eq!(key_name(p, named(NamedKey::Alt)), "Alt");
        assert_eq!(key_name(p, named(NamedKey::AltGraph)), "AltGr");
        assert_eq!(key_name(p, named(NamedKey::Backspace)), "Backspace");
        assert_eq!(key_name(p, named(NamedKey::Delete)), "Delete");
        assert_eq!(key_name(p, named(NamedKey::Enter)), "Enter");
        assert_eq!(key_name(p, named(NamedKey::Escape)), "Escape");
    }
}

#[test]
fn other_named_keys_are_called_by_their_symbolic_name() {
    for p in PLATFORMS {
        assert_eq!(key_name(p, named(NamedKey::Other("CapsLock".to_string()))), "CapsLock");
        assert_eq!(key_name(p, named(NamedKey::Other("F35".to_string()))), "F35");
        assert_eq!(key_name(p, named(NamedKey::Other(String::new()))), "");
    }
    assert_eq!(NamedKey::Alt.name(), "Alt");
    assert_eq!(NamedKey::AltGraph.name(), "AltGraph");
    assert_eq!(NamedKey::ArrowDown.name(), "ArrowDown");
    assert_eq!(NamedKey::Super.name(), "Super");
    assert_eq!(NamedKey::Other("Tab".to_string()).name(), "Tab");
}

#[test]
fn os_specific_names_per_module() {
    assert_eq!(linux::os_specific_key_name(&NamedKey::AltGraph), Some("AltGr"));
    assert_eq!(linux::os_specific_key_name(&NamedKey::Super), None);
    assert_eq!(linux::os_specific_key_name(&NamedKey::Alt), None);
    assert_eq!(macos::os_specific_key_name(&NamedKey::Super), Some("Command"));
    assert_eq!(macos::os_specific_key_name(&NamedKey::Alt), Some("Option"));
    assert_eq!(web::os_specific_key_name(&NamedKey::Super), Some("Super"));
    assert_eq!(web::os_specific_key_name(&NamedKey::Enter), None);
    assert_eq!(windows::os_specific_key_name(&NamedKey::Super), Some("Windows"));
    assert_eq!(windows::os_specific_key_name(&NamedKey::Escape), None);
    for p in PLATFORMS {
        assert_eq!(os_specific_key_name(p, &NamedKey::Other("Alt".to_string())), None);
        assert_eq!(os_specific_key_name(p, &NamedKey::ArrowUp), Some("Up"));
    }
}

#[test]
fn typed_text_is_shown_in_ascii_upper_case() {
    for p in PLATFORMS {
        assert_eq!(key_name(p, VirtualKey::Character("a".to_string())), "A");
        assert_eq!(key_name(p, VirtualKey::Character("z".to_string())), "Z");
        assert_eq!(key_name(p, VirtualKey::Character("Q".to_string())), "Q");
        assert_eq!(key_name(p, VirtualKey::Character("7".to_string())), "7");
        assert_eq!(key_name(p, VirtualKey::Character("`{|}~".to_string())), "`{|}~");
        assert_eq!(key_name(p, VirtualKey::Character("@[".to_string())), "@[");
        assert_eq!(key_name(p, VirtualKey::Character("ss\u{df}\u{e9}x".to_string())), "SS\u{df}\u{e9}X");
        assert_eq!(key_name(p, VirtualKey::Character(String::new())), "");
    }
}

#[test]
fn dead_keys_are_called_by_their_character() {
    for p in PLATFORMS {
        assert_eq!(key_name(p, VirtualKey::Dead(None)), "<unknown>");
        assert_eq!(key_name(p, VirtualKey::Dead(Some('^'))), "^");
        assert_eq!(key_name(p, VirtualKey::Dead(Some('\u{b4}'))), "\u{b4}");
        assert_eq!(key_name(p, VirtualKey::Dead(Some('a'))), "a");
    }
}

#[test]
fn unidentified_virtual_keys_get_a_placeholder() {
    for p in PLATFORMS {
        assert_eq!(key_name(p, VirtualKey::Unidentified(NativeKey::Unidentified)), "<unknown>");
        assert_eq!(key_name(p, VirtualKey::Unidentified(NativeKey::Android(5))), "SC5");
        assert_eq!(key_name(p, VirtualKey::Unidentified(NativeKey::MacOS(0x7f))), "SC127");
        assert_eq!(key_name(p, VirtualKey::Unidentified(NativeKey::Windows(0xe05b))), "SC57435");
        assert_eq!(key_name(p, VirtualKey::Unidentified(NativeKey::Xkb(0xffff_ffff))), "SC4294967295");
        assert_eq!(key_name(p, VirtualKey::Unidentified(NativeKey::Web("Hyper".to_string()))), "Hyper");
    }
}

#[test]
fn physical_key_name_prefers_the_platforms_name() {
    let key = PhysicalKey::Code(Key::KeyQ);
    assert_eq!(physical_key_name(Some("A".to_string()), key), "A");
    assert_eq!(physical_key_name(Some(String::new()), key), "");
    assert_eq!(physical_key_name(None, key), "KeyQ");
}

#[test]
fn physical_key_name_falls_back_to_symbolic_names_and_placeholders() {
    assert_eq!(physical_key_name(None, PhysicalKey::Code(Key::NumpadEnter)), "NumpadEnter");
    assert_eq!(physical_key_name(None, PhysicalKey::Unidentified(NativeKeyCode::Unidentified)), "<unknown>");
    assert_eq!(physical_key_name(None, PhysicalKey::Unidentified(NativeKeyCode::Android(12))), "SC12");
    assert_eq!(physical_key_name(None, PhysicalKey::Unidentified(NativeKeyCode::MacOS(0x34))), "SC52");
    assert_eq!(physical_key_name(None, PhysicalKey::Unidentified(NativeKeyCode::Windows(0xe01e))), "SC57374");
    assert_eq!(physical_key_name(None, PhysicalKey::Unidentified(NativeKeyCode::Xkb(240))), "SC240");
    assert_eq!(PhysicalKey::Code(Key::F1).fallback_name(), "F1");
    assert_eq!(NativeKeyCode::Xkb(0).name(), "SC0");
    assert_eq!(NativeKey::Web("x".to_string()).name(), "x");
}

#[test]
fn macos_short_names() {
    let name = |key: Key| macos::try_physical_key_name(PhysicalKey::Code(key));
    assert_eq!(name(Key::Backquote).as_deref(), Some("`"));
    assert_eq!(name(Key::Backslash).as_deref(), Some("\\"));
    assert_eq!(name(Key::Quote).as_deref(), Some("'"));
    assert_eq!(name(Key::Digit0).as_deref(), Some("0"));
    assert_eq!(name(Key::KeyA).as_deref(), Some("A"));
    assert_eq!(name(Key::AltLeft).as_deref(), Some("Option"));
    assert_eq!(name(Key::AltRight).as_deref(), Some("Right Option"));
    assert_eq!(name(Key::ControlLeft).as_deref(), Some("Control"));
    assert_eq!(name(Key::LogoLeft).as_deref(), Some("Command"));
    assert_eq!(name(Key::LogoRight).as_deref(), Some("Right Command"));
    assert_eq!(name(Key::ShiftRight).as_deref(), Some("Right Shift"));
    assert_eq!(name(Key::Backspace).as_deref(), Some("Delete"));
    assert_eq!(name(Key::Enter).as_deref(), Some("Return"));
    assert_eq!(name(Key::Delete).as_deref(), Some("Forward Delete"));
    assert_eq!(name(Key::Escape).as_deref(), Some("Esc"));
    assert_eq!(name(Key::ArrowUp).as_deref(), Some("Up"));
    assert_eq!(name(Key::Tab), None);
    assert_eq!(name(Key::F1), None);
    assert_eq!(name(Key::Numpad0), None);
    assert_eq!(macos::try_physical_key_name(PhysicalKey::Unidentified(NativeKeyCode::MacOS(0))), None);
    assert_eq!(macos::curated_key_name(Key::Semicolon), Some(";"));
}

#[test]
fn web_short_names() {
    let name = |key: Key| web::try_physical_key_name(PhysicalKey::Code(key));
    assert_eq!(name(Key::BracketLeft).as_deref(), Some("["));
    assert_eq!(name(Key::KeyZ).as_deref(), Some("Z"));
    assert_eq!(name(Key::AltLeft).as_deref(), Some("Left Alt"));
    assert_eq!(name(Key::AltRight).as_deref(), Some("Right Alt"));
    assert_eq!(name(Key::ControlLeft).as_deref(), Some("Left Control"));
    assert_eq!(name(Key::LogoLeft).as_deref(), Some("Left Super"));
    assert_eq!(name(Key::LogoRight).as_deref(), Some("Right Super"));
    assert_eq!(name(Key::ShiftLeft).as_deref(), Some("Left Shift"));
    assert_eq!(name(Key::ArrowDown).as_deref(), Some("Down"));
    assert_eq!(name(Key::Backspace), None);
    assert_eq!(name(Key::Enter), None);
    assert_eq!(name(Key::Escape), None);
    assert_eq!(name(Key::Delete), None);
    assert_eq!(web::try_physical_key_name(PhysicalKey::Unidentified(NativeKeyCode::Unidentified)), None);
    assert_eq!(web::curated_key_name(Key::Minus), Some("-"));
}

#[test]
fn only_macos_and_the_web_have_tables_of_short_names() {
    assert_eq!(curated_key_name(Platform::Linux, Key::KeyA), None);
    assert_eq!(curated_key_name(Platform::Windows, Key::KeyA), None);
    assert_eq!(curated_key_name(Platform::MacOs, Key::KeyA), Some("A"));
    assert_eq!(curated_key_name(Platform::Web, Key::KeyA), Some("A"));
}

#[test]
fn key_display_name_on_platforms_with_tables() {
    assert_eq!(key_display_name(Platform::MacOs, Key::Backspace, None), "Delete");
    assert_eq!(key_display_name(Platform::MacOs, Key::AltRight, None), "Right Option");
    assert_eq!(key_display_name(Platform::MacOs, Key::Tab, None), "Tab");
    assert_eq!(key_display_name(Platform::MacOs, Key::Backspace, Some("ignored".to_string())), "Delete");
    assert_eq!(key_display_name(Platform::Web, Key::Backspace, None), "Backspace");
    assert_eq!(key_display_name(Platform::Web, Key::Comma, None), ",");
    assert_eq!(key_display_name(Platform::Web, Key::Comma, Some("ignored".to_string())), ",");
}

#[test]
fn key_display_name_on_platforms_where_the_system_names_keys() {
    for p in [Platform::Linux, Platform::Windows] {
        assert_eq!(key_display_name(p, Key::KeyQ, Some("A".to_string())), "A");
        assert_eq!(key_display_name(p, Key::KeyQ, None), "KeyQ");
        assert_eq!(key_display_name(p, Key::Backspace, None), "Backspace");
    }
}

#[test]
fn scancode_display_name_degrades_to_a_placeholder() {
    assert_eq!(scancode_display_name(Platform::Linux, 30, Some("Q".to_string())), "Q");
    assert_eq!(scancode_display_name(Platform::Linux, 30, None), "KeyA");
    assert_eq!(scancode_display_name(Platform::Linux, 0, None), "SC0");
    assert_eq!(scancode_display_name(Platform::Linux, 250, None), "SC250");
    assert_eq!(scancode_display_name(Platform::Windows, 0xe048, None), "ArrowUp");
    assert_eq!(scancode_display_name(Platform::Windows, 0xe0ff, None), "SC57599");
    assert_eq!(scancode_display_name(Platform::Windows, 0xe0ff, Some("x".to_string())), "x");
    assert_eq!(scancode_display_name(Platform::MacOs, 0x00, None), "A");
    assert_eq!(scancode_display_name(Platform::MacOs, 0x00, Some("ignored".to_string())), "A");
    assert_eq!(scancode_display_name(Platform::MacOs, 0x33, None), "Delete");
    assert_eq!(scancode_display_name(Platform::MacOs, 0x30, None), "Tab");
    assert_eq!(scancode_display_name(Platform::MacOs, 0x7f, None), "SC127");
    assert_eq!(scancode_display_name(Platform::Web, 65, None), "A");
    assert_eq!(scancode_display_name(Platform::Web, 13, None), "Enter");
    assert_eq!(scancode_display_name(Platform::Web, 0x1_0000, None), "SC65536");
}

#[test]
fn debug_listing_of_physical_keys() {
    assert_eq!(PhysicalKey::Code(Key::KeyA).debug_name(), "Code(KeyA)");
    assert_eq!(PhysicalKey::Code(Key::Help).debug_name(), "Code(Help)");
    assert_eq!(PhysicalKey::Unidentified(NativeKeyCode::Unidentified).debug_name(), "Unidentified(Unidentified)");
    assert_eq!(PhysicalKey::Unidentified(NativeKeyCode::Xkb(0x1e)).debug_name(), "Unidentified(Xkb(0x001E))");
    assert_eq!(PhysicalKey::Unidentified(NativeKeyCode::Android(0x12345)).debug_name(), "Unidentified(Android(0x12345))");
    assert_eq!(PhysicalKey::Unidentified(NativeKeyCode::MacOS(0xffff)).debug_name(), "Unidentified(MacOS(0xFFFF))");
    assert_eq!(PhysicalKey::Unidentified(NativeKeyCode::Windows(0)).debug_name(), "Unidentified(Windows(0x0000))");
    assert_eq!(NativeKeyCode::Windows(0xe05b).debug_name(), "Windows(0xE05B)");
}
