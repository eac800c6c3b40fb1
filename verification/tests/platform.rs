use key_names::text::same_text;
use key_names::Platform;

#[test]
fn platform_of_a_build_target() {
    assert_eq!(Platform::for_target("linux", "x86_64"), Some(Platform::Linux));
    assert_eq!(Platform::for_target("linux", "aarch64"), Some(Platform::Linux));
    assert_eq!(Platform::for_target("macos", "aarch64"), Some(Platform::MacOs));
    assert_eq!(Platform::for_target("windows", "x86_64"), Some(Platform::Windows));
    assert_eq!(Platform::for_target("unknown", "wasm32"), Some(Platform::Web));
    assert_eq!(Platform::for_target("emscripten", "wasm32"), Some(Platform::Web));
    assert_eq!(Platform::for_target("linux", "wasm32"), Some(Platform::Linux));
}

#[test]
fn targets_without_platform() {
    assert_eq!(Platform::for_target("freebsd", "x86_64"), None);
    assert_eq!(Platform::for_target("android", "aarch64"), None);
    assert_eq!(Platform::for_target("ios", "aarch64"), None);
    assert_eq!(Platform::for_target("", ""), None);
    assert_eq!(Platform::for_target("Linux", "x86_64"), None);
    assert_eq!(Platform::for_target("wasm32", "unknown"), None);
    assert_eq!(Platform::for_target("unknown", "wasm64"), None);
}

#[test]
fn texts_are_compared_character_by_character() {
    assert!(same_text("", ""));
    assert!(same_text("wl_seat", "wl_seat"));
    assert!(!same_text("wl_seat", "wl_seat "));
    assert!(!same_text("wl_seat", "wl_sea"));
    assert!(!same_text("x11", "X11"));
    assert!(same_text("\u{e9}", "\u{e9}"));
    assert!(!same_text("\u{e9}", "e\u{301}"));
}
