use key_names::windows::scancode_name;

/// UTF-16 read leniently, written out unit by unit: a unit outside the
/// surrogate range is its own character, a high surrogate with a low one
/// behind it is one character, and any other surrogate is U+FFFD.
fn lenient(units: &[u16]) -> String {
    let mut out = String::new();
    let mut i = 0;
    while i < units.len() {
        let u = units[i] as u32;
        if !(0xd800..=0xdfff).contains(&u) {
            out.push(char::from_u32(u).unwrap());
            i += 1;
        } else if u <= 0xdbff && i + 1 < units.len() && (0xdc00..=0xdfff).contains(&(units[i + 1] as u32)) {
            let low = units[i + 1] as u32;
            out.push(char::from_u32(0x1_0000 + (u - 0xd800) * 0x400 + (low - 0xdc00)).unwrap());
            i += 2;
        } else {
            out.push('\u{fffd}');
            i += 1;
        }
    }
    out
}

const UNITS: [u16; 14] = [
    0x0000, 0x0041, 0x007f, 0x0080, 0x07ff, 0xd7ff, 0xd800, 0xd801, 0xdbff, 0xdc00, 0xdc01, 0xdfff, 0xe000, 0xffff,
];

#[test]
fn every_short_reply_is_read_leniently() {
    for a in UNITS {
        assert_eq!(scancode_name(1, vec![a], 1), lenient(&[a]));
        for b in UNITS {
            assert_eq!(scancode_name(1, vec![a, b], 2), lenient(&[a, b]));
            for c in UNITS {
                assert_eq!(scancode_name(1, vec![a, b, c], 3), lenient(&[a, b, c]));
                for d in UNITS {
                    assert_eq!(scancode_name(1, vec![a, b, c, d], 4), lenient(&[a, b, c, d]));
                }
            }
        }
    }
}

#[test]
fn every_single_unit_is_read_leniently() {
    for u in 0..=u16::MAX {
        assert_eq!(scancode_name(1, vec![u], 1), lenient(&[u]));
        assert_eq!(scancode_name(1, vec![0xd83d, u], 2), lenient(&[0xd83d, u]));
        assert_eq!(scancode_name(1, vec![u, 0xde00], 2), lenient(&[u, 0xde00]));
    }
}

#[test]
fn every_cut_of_a_reply_is_read_leniently() {
    let units: Vec<u16> = "a\u{1f600}b\u{e9}\u{10000}".encode_utf16().chain([0xd800, 0x63, 0xdc00]).collect();
    for len in 1..=units.len() {
        assert_eq!(scancode_name(1, units.clone(), len as i32), lenient(&units[..len]));
    }
}
