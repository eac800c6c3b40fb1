use key_names::windows::{key_name_lparam, physical_key_name, scancode_name, to_scancode};
use key_names::{Key, NativeKeyCode, PhysicalKey};

fn utf16(s: &str) -> Vec<u16> {
    s.encode_utf16().collect()
}

fn filled(s: &str) -> (Vec<u16>, i32) {
    let mut buffer = utf16(s);
    let len = buffer.len() as i32;
    buffer.resize(32, 0);
    (buffer, len)
}

#[test]
fn lparam_holds_the_scancode_in_its_upper_half() {
    assert_eq!(key_name_lparam(0), 0);
    assert_eq!(key_name_lparam(0x1e), 0x001e_0000);
    assert_eq!(key_name_lparam(0x48), 0x0048_0000);
    assert_eq!(key_name_lparam(0x7fff), 0x7fff_0000);
}

#[test]
fn lparam_of_an_extended_key_has_bit_24_set() {
    assert_eq!(key_name_lparam(0xe048), 0xe148_0000u32 as i32);
    assert_eq!(key_name_lparam(0xe048), -515_375_104);
    assert_eq!(key_name_lparam(0xe000), 0xe100_0000u32 as i32);
    assert_eq!(key_name_lparam(0xe0ff), 0xe1ff_0000u32 as i32);
    assert_eq!(key_name_lparam(0xe148), 0xe148_0000u32 as i32);
    assert_eq!(key_name_lparam(0xe1ff), 0xe1ff_0000u32 as i32);
    assert_eq!(key_name_lparam(0xdfff), 0xdfff_0000u32 as i32);
    assert_eq!(key_name_lparam(0xffff), 0xffff_0000u32 as i32);
    assert_eq!(key_name_lparam(0x8000), i32::MIN);
}

#[test]
fn lparam_for_every_scancode() {
    for sc in 0..=u16::MAX {
        let mut expected = sc as i32;
        expected <<= 16;
        if (sc & 0xff00) == 0xe000 {
            expected |= 1 << 24;
        }
        assert_eq!(key_name_lparam(sc), expected, "{:#x}", sc);
    }
}

#[test]
fn a_reply_of_length_zero_gives_the_placeholder() {
    assert_eq!(scancode_name(30, vec![0; 32], 0), "SC30");
    assert_eq!(scancode_name(0xe048, utf16("Up"), 0), "SC57416");
    assert_eq!(scancode_name(0, Vec::new(), 0), "SC0");
}

#[test]
fn the_reply_is_cut_at_its_length() {
    let (buffer, len) = filled("Up");
    assert_eq!(len, 2);
    assert_eq!(scancode_name(0xe048, buffer, len), "Up");
    let (buffer, len) = filled("Num 8");
    assert_eq!(scancode_name(0x48, buffer, len), "Num 8");
    assert_eq!(scancode_name(0x48, utf16("Right Shift"), 5), "Right");
    assert_eq!(scancode_name(0x48, utf16("Right Shift"), 11), "Right Shift");
}

#[test]
fn a_length_outside_the_buffer_keeps_all_of_it() {
    assert_eq!(scancode_name(1, utf16("Esc"), 40), "Esc");
    assert_eq!(scancode_name(1, utf16("Esc"), -1), "Esc");
    assert_eq!(scancode_name(1, utf16("Esc"), i32::MIN), "Esc");
    assert_eq!(scancode_name(1, utf16("Esc"), i32::MAX), "Esc");
    assert_eq!(scancode_name(1, Vec::new(), 3), "");
}

#[test]
fn the_reply_is_read_as_utf16() {
    let (buffer, len) = filled("\u{c9}chap");
    assert_eq!(scancode_name(1, buffer, len), "\u{c9}chap");
    let (buffer, len) = filled("\u{30b9}\u{30da}\u{30fc}\u{30b9}");
    assert_eq!(scancode_name(0x39, buffer, len), "\u{30b9}\u{30da}\u{30fc}\u{30b9}");
    assert_eq!(scancode_name(1, vec![0xd834, 0xdd1e], 2), "\u{1d11e}");
    assert_eq!(scancode_name(1, vec![0xd800, 0xdc00], 2), "\u{10000}");
    assert_eq!(scancode_name(1, vec![0xdbff, 0xdfff], 2), "\u{10ffff}");
    assert_eq!(scancode_name(1, vec![0xd7ff, 0xe000, 0xffff], 3), "\u{d7ff}\u{e000}\u{ffff}");
    assert_eq!(scancode_name(1, vec![0x41, 0, 0x42], 3), "A\0B");
}

#[test]
fn a_surrogate_without_partner_becomes_the_replacement_character() {
    assert_eq!(scancode_name(1, vec![0xd800], 1), "\u{fffd}");
    assert_eq!(scancode_name(1, vec![0xdc00], 1), "\u{fffd}");
    assert_eq!(scancode_name(1, vec![0xd834, 0x41], 2), "\u{fffd}A");
    assert_eq!(scancode_name(1, vec![0xdd1e, 0xd834], 2), "\u{fffd}\u{fffd}");
    assert_eq!(scancode_name(1, vec![0xd800, 0xd800, 0xdc00], 3), "\u{fffd}\u{10000}");
    assert_eq!(scancode_name(1, vec![0xd834, 0xdd1e, 0xdd1e], 3), "\u{1d11e}\u{fffd}");
    assert_eq!(scancode_name(1, vec![0xd834, 0xdd1e], 1), "\u{fffd}");
    assert_eq!(
        scancode_name(1, vec![0xd834, 0xdd1e, 0x6d, 0x75, 0xd800, 0x69, 0x63], 7),
        "\u{1d11e}mu\u{fffd}ic"
    );
}

#[test]
fn scancodes_of_physical_keys_on_windows() {
    assert_eq!(to_scancode(PhysicalKey::Code(Key::ArrowUp)), Some(0xe048));
    assert_eq!(to_scancode(PhysicalKey::Code(Key::Help)), None);
    assert_eq!(to_scancode(PhysicalKey::Unidentified(NativeKeyCode::Windows(0xe0ff))), Some(0xe0ff));
    assert_eq!(to_scancode(PhysicalKey::Unidentified(NativeKeyCode::Xkb(5))), None);
    assert_eq!(to_scancode(PhysicalKey::Unidentified(NativeKeyCode::Unidentified)), None);
}

#[test]
fn physical_keys_are_named_by_the_system_on_windows() {
    let (buffer, len) = filled("Up");
    assert_eq!(physical_key_name(PhysicalKey::Code(Key::ArrowUp), buffer, len), "Up");
    assert_eq!(physical_key_name(PhysicalKey::Code(Key::ArrowUp), vec![0; 32], 0), "SC57416");
    let bare = PhysicalKey::Unidentified(NativeKeyCode::Windows(0x59));
    assert_eq!(physical_key_name(bare, vec![0; 32], 0), "SC89");
}

#[test]
fn physical_keys_without_scancode_are_listed_on_windows() {
    let (buffer, len) = filled("unused");
    assert_eq!(physical_key_name(PhysicalKey::Code(Key::Help), buffer.clone(), len), "Code(Help)");
    let foreign = PhysicalKey::Unidentified(NativeKeyCode::Xkb(0x1e));
    assert_eq!(physical_key_name(foreign, buffer.clone(), len), "Unidentified(Xkb(0x001E))");
    let unknown = PhysicalKey::Unidentified(NativeKeyCode::Unidentified);
    assert_eq!(physical_key_name(unknown, buffer, 0), "Unidentified(Unidentified)");
}
