use key_names::modifiers::mods_prefix_string;
use key_names::platform::{Platform, CTRL_STR, SEPARATOR, SHIFT_STR};
use key_names::{linux, macos, web, windows};

const PLATFORMS: [Platform; 4] = [Platform::Linux, Platform::MacOs, Platform::Windows, Platform::Web];

#[test]
fn no_modifiers_give_the_empty_string() {
    for platform in PLATFORMS {
        assert_eq!(mods_prefix_string(platform, false, false, false, false), "");
    }
}

#[test]
fn windows_writes_ctrl_before_shift() {
    let s = mods_prefix_string(Platform::Windows, true, true, false, false);
    assert_eq!(s, "Ctrl + Shift + ");
    assert!(s.find("Ctrl").unwrap() < s.find("Shift").unwrap());
}

#[test]
fn macos_writes_ctrl_then_option_then_shift() {
    let s = mods_prefix_string(Platform::MacOs, true, true, true, false);
    assert_eq!(s, "Ctrl + Option + Shift + ");
    let ctrl = s.find("Ctrl").unwrap();
    let option = s.find("Option").unwrap();
    let shift = s.find("Shift").unwrap();
    assert!(ctrl < option && option < shift);
}

#[test]
fn all_four_modifiers_on_each_platform() {
    assert_eq!(mods_prefix_string(Platform::Windows, true, true, true, true), "Ctrl + Shift + Alt + Win + ");
    assert_eq!(mods_prefix_string(Platform::MacOs, true, true, true, true), "Ctrl + Option + Shift + Cmd + ");
    assert_eq!(mods_prefix_string(Platform::Linux, true, true, true, true), "Ctrl + Shift + Alt + Super + ");
    assert_eq!(mods_prefix_string(Platform::Web, true, true, true, true), "Ctrl + Shift + Alt + Super + ");
}

#[test]
fn single_modifiers_end_in_the_separator() {
    assert_eq!(mods_prefix_string(Platform::Linux, true, false, false, false), "Shift + ");
    assert_eq!(mods_prefix_string(Platform::Linux, false, true, false, false), "Ctrl + ");
    assert_eq!(mods_prefix_string(Platform::Linux, false, false, true, false), "Alt + ");
    assert_eq!(mods_prefix_string(Platform::Linux, false, false, false, true), "Super + ");
    assert_eq!(mods_prefix_string(Platform::MacOs, false, false, true, false), "Option + ");
    assert_eq!(mods_prefix_string(Platform::MacOs, false, false, false, true), "Cmd + ");
    assert_eq!(mods_prefix_string(Platform::Windows, false, false, false, true), "Win + ");
}

#[test]
fn every_combination_follows_the_platforms_order() {
    for platform in PLATFORMS {
        for bits in 0..16u32 {
            let shift = bits & 1 != 0;
            let ctrl = bits & 2 != 0;
            let alt = bits & 4 != 0;
            let logo = bits & 8 != 0;
            let mut expected = String::new();
            for ch in platform.modifiers_order().chars() {
                let word = match ch {
                    's' if shift => SHIFT_STR,
                    'c' if ctrl => CTRL_STR,
                    'a' if alt => platform.alt_str(),
                    'm' if logo => platform.logo_str(),
                    _ => continue,
                };
                expected += word;
                expected += " + ";
            }
            assert_eq!(mods_prefix_string(platform, shift, ctrl, alt, logo), expected);
        }
    }
}

#[test]
fn alt_and_shift_swap_places_on_macos() {
    assert_eq!(mods_prefix_string(Platform::MacOs, true, false, true, false), "Option + Shift + ");
    assert_eq!(mods_prefix_string(Platform::Windows, true, false, true, false), "Shift + Alt + ");
    assert_eq!(mods_prefix_string(Platform::Linux, true, false, true, false), "Shift + Alt + ");
    assert_eq!(mods_prefix_string(Platform::Web, true, false, true, false), "Shift + Alt + ");
}

#[test]
fn vocabulary_of_each_platform() {
    assert_eq!(CTRL_STR, "Ctrl");
    assert_eq!(SHIFT_STR, "Shift");
    assert_eq!(SEPARATOR, " + ");
    assert_eq!((linux::ALT_STR, linux::LOGO_STR, linux::MODIFIERS_ORDER), ("Alt", "Super", "csam"));
    assert_eq!((macos::ALT_STR, macos::LOGO_STR, macos::MODIFIERS_ORDER), ("Option", "Cmd", "casm"));
    assert_eq!((windows::ALT_STR, windows::LOGO_STR, windows::MODIFIERS_ORDER), ("Alt", "Win", "csam"));
    assert_eq!((web::ALT_STR, web::LOGO_STR, web::MODIFIERS_ORDER), ("Alt", "Super", "csam"));
    assert_eq!(Platform::Linux.alt_str(), "Alt");
    assert_eq!(Platform::MacOs.alt_str(), "Option");
    assert_eq!(Platform::Windows.logo_str(), "Win");
    assert_eq!(Platform::MacOs.logo_str(), "Cmd");
    assert_eq!(Platform::Web.logo_str(), "Super");
    assert_eq!(Platform::MacOs.modifiers_order(), "casm");
    assert_eq!(Platform::Windows.modifiers_order(), "csam");
}

#[test]
fn platforms_on_which_the_system_names_keys() {
    assert!(Platform::Linux.has_native_names());
    assert!(Platform::Windows.has_native_names());
    assert!(!Platform::MacOs.has_native_names());
    assert!(!Platform::Web.has_native_names());
}
