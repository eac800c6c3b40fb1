//! Key names on Windows. The system names a key by its scancode: the caller
//! hands `GetKeyNameTextW` the value that `key_name_lparam` gives and brings
//! back the buffer that it filled and the length that it returned.

use vstd::prelude::*;
use crate::input::{NamedKey, NativeKeyCode, PhysicalKey};
use crate::text::{from_utf16_lossy, scancode_placeholder, spec_scancode_placeholder, spec_utf16_lossy};

verus! {

/// Name of the Alt modifier.
pub const ALT_STR: &'static str = "Alt";

/// Name of the logo modifier.
pub const LOGO_STR: &'static str = "Win";

/// Order in which modifiers are written: `c` Ctrl, `s` Shift, `a` Alt,
/// `m` logo.
pub const MODIFIERS_ORDER: &'static str = "csam";

/// The name that Windows gives to a named key, where it has one of its own.
pub open spec fn spec_os_specific_key_name(key: NamedKey) -> Option<Seq<char>> {
    match key {
        NamedKey::AltGraph => Some("AltGr"@),
        NamedKey::ArrowDown => Some("Down"@),
        NamedKey::ArrowLeft => Some("Left"@),
        NamedKey::ArrowRight => Some("Right"@),
        NamedKey::ArrowUp => Some("Up"@),
        NamedKey::Super => Some("Windows"@),
        _ => None,
    }
}

/// The name that Windows gives to a named key, or `None` where the key's
/// own name serves.
pub fn os_specific_key_name(key: &NamedKey) -> (r: Option<&'static str>)
    ensures
        match r {
            Some(name) => spec_os_specific_key_name(*key) == Some(name@),
            None => spec_os_specific_key_name(*key) is None,
        },
{
    match key {
        NamedKey::AltGraph => Some("AltGr"),
        NamedKey::ArrowDown => Some("Down"),
        NamedKey::ArrowLeft => Some("Left"),
        NamedKey::ArrowRight => Some("Right"),
        NamedKey::ArrowUp => Some("Up"),
        NamedKey::Super => Some("Windows"),
        _ => None,
    }
}

/// The scancode of a physical key: the table's code of a known key, the
/// code itself of a bare Windows code. A bare code of another platform has
/// none.
pub open spec fn spec_to_scancode(physical_key: PhysicalKey) -> Option<u32> {
    match physical_key {
        PhysicalKey::Code(key) => crate::scancode::windows::spec_key_to_sc(key),
        PhysicalKey::Unidentified(NativeKeyCode::Windows(sc)) => Some(sc as u32),
        PhysicalKey::Unidentified(_) => None,
    }
}

/// The scancode of a physical key.
pub fn to_scancode(physical_key: PhysicalKey) -> (r: Option<u32>)
    ensures
        r == spec_to_scancode(physical_key),
{
    match physical_key {
        PhysicalKey::Code(key) => crate::scancode::windows::key_to_sc(key),
        PhysicalKey::Unidentified(NativeKeyCode::Windows(sc)) => Some(sc as u32),
        PhysicalKey::Unidentified(_) => None,
    }
}

/// Whether a scancode carries the prefix byte of an extended key.
pub open spec fn spec_is_extended(sc: u16) -> bool {
    sc / 0x100 == 0xE0
}

/// The 32 bits of the value that names a key to the system: the scancode in
/// the upper half, and bit 24 set for an extended key.
pub open spec fn spec_key_name_bits(sc: u16) -> int {
    sc * 0x1_0000 + if spec_is_extended(sc) { 0x100_0000int } else { 0int }
}

/// The value that names a key to the system: `spec_key_name_bits` read as
/// a signed number.
pub open spec fn spec_key_name_lparam(sc: u16) -> int {
    if spec_key_name_bits(sc) >= 0x8000_0000 {
        spec_key_name_bits(sc) - 0x1_0000_0000
    } else {
        spec_key_name_bits(sc)
    }
}

/// The value to hand to the system to have the key with scancode `sc`
/// named.
pub fn key_name_lparam(sc: u16) -> (r: i32)
    ensures
        r == spec_key_name_lparam(sc),
{
    let wide: u32 = sc as u32;
    let mut bits: u32 = wide << 16;
    assert(bits == wide * 0x1_0000) by (bit_vector)
        requires
            bits == wide << 16,
            wide <= 0xffff,
    ;
    if sc & 0xFF00 == 0xE000 {
        assert(sc / 0x100 == 0xE0) by (bit_vector)
            requires
                sc & 0xFF00 == 0xE000,
        ;
        let flagged: u32 = bits | (1u32 << 24);
        assert(flagged == bits + 0x100_0000) by (bit_vector)
            requires
                flagged == bits | (1u32 << 24),
                bits == wide << 16,
                wide & 0xFF00 == 0xE000,
                wide <= 0xffff,
        ;
        assert(wide & 0xFF00 == 0xE000) by (bit_vector)
            requires
                wide == sc as u32,
                sc & 0xFF00 == 0xE000,
        ;
        bits = flagged;
    } else {
        assert(sc / 0x100 != 0xE0) by (bit_vector)
            requires
                sc & 0xFF00 != 0xE000,
        ;
    }
    if bits >= 0x8000_0000 {
        ((bits - 0x8000_0000) as i32) + i32::MIN
    } else {
        bits as i32
    }
}

/// The code units that the system wrote: the first `name_len` units of the
/// buffer, or all of it where `name_len` is no length within it.
pub open spec fn spec_reply_units(buffer: Seq<u16>, name_len: int) -> Seq<u16> {
    if 0 <= name_len <= buffer.len() {
        buffer.subrange(0, name_len)
    } else {
        buffer
    }
}

/// The name of a scancode, given the system's reply. A length of 0 means
/// that the system has no name for the key, and the placeholder serves.
pub open spec fn spec_scancode_name(sc: u16, buffer: Seq<u16>, name_len: int) -> Seq<char> {
    if name_len == 0 {
        spec_scancode_placeholder(sc as nat)
    } else {
        spec_utf16_lossy(spec_reply_units(buffer, name_len))
    }
}

/// The name of the key with scancode `sc`. `buffer` is the buffer that the
/// system filled with UTF-16 when it was handed `key_name_lparam(sc)`, and
/// `name_len` the length that it returned.
pub fn scancode_name(sc: u16, buffer: Vec<u16>, name_len: i32) -> (r: String)
    ensures
        r@ == spec_scancode_name(sc, buffer@, name_len as int),
{
    if name_len == 0 {
        return scancode_placeholder(sc as u32);
    }
    let mut units = buffer;
    if name_len > 0 {
        units.truncate(name_len as usize);
    }
    from_utf16_lossy(&units)
}

/// The name of a physical key, given the system's reply for its scancode.
pub open spec fn spec_physical_key_name(
    physical_key: PhysicalKey,
    buffer: Seq<u16>,
    name_len: int,
) -> Seq<char> {
    match spec_to_scancode(physical_key) {
        Some(sc) => spec_scancode_name((sc % 0x1_0000) as u16, buffer, name_len),
        None => physical_key.spec_debug_name(),
    }
}

/// The name of a physical key. `buffer` and `name_len` are the system's
/// reply for the low 16 bits of `to_scancode(physical_key)`; for a key
/// without a scancode neither is read, and the key's debug listing is its
/// name.
pub fn physical_key_name(physical_key: PhysicalKey, buffer: Vec<u16>, name_len: i32) -> (r: String)
    ensures
        r@ == spec_physical_key_name(physical_key, buffer@, name_len as int),
{
    match to_scancode(physical_key) {
        Some(sc) => scancode_name((sc % 0x1_0000) as u16, buffer, name_len),
        None => physical_key.debug_name(),
    }
}

} // verus!
