//! Translation between native scancodes and keys, one table per platform.
//!
//! Each platform has two tables, written down separately: from code to key
//! and from key to canonical code. Neither is total. Several codes may
//! stand for one key, so a code need not come back from a round trip; a key
//! always does.

use vstd::prelude::*;
use crate::keys::Key;
use crate::platform::Platform;

pub mod linux;
pub mod macos;
pub mod web;
pub mod windows;

verus! {

/// The key that a native code stands for on a platform, if any.
pub open spec fn spec_decode(platform: Platform, code: u32) -> Option<Key> {
    match platform {
        Platform::Linux => linux::spec_sc_to_key(code),
        Platform::MacOs => macos::spec_sc_to_key(code),
        Platform::Windows => windows::spec_sc_to_key(code),
        Platform::Web => web::spec_sc_to_key(code),
    }
}

/// The canonical native code of a key on a platform, if the platform has
/// the key.
pub open spec fn spec_encode(platform: Platform, key: Key) -> Option<u32> {
    match platform {
        Platform::Linux => linux::spec_key_to_sc(key),
        Platform::MacOs => macos::spec_key_to_sc(key),
        Platform::Windows => windows::spec_key_to_sc(key),
        Platform::Web => web::spec_key_to_sc(key),
    }
}

/// The code that names no key on a platform.
pub open spec fn spec_invalid_scancode(platform: Platform) -> u32 {
    match platform {
        Platform::Linux => linux::SC_INVALID,
        Platform::MacOs => macos::SC_INVALID,
        Platform::Windows => windows::SC_INVALID,
        Platform::Web => web::SC_INVALID,
    }
}

/// Translates a native code into a key. Every code is accepted: one that
/// the platform's table does not hold gives `None`, and so does every code
/// beyond 16 bits.
pub fn decode_scancode(platform: Platform, code: u32) -> (r: Option<Key>)
    ensures
        r == spec_decode(platform, code),
        code > 0xffff ==> r is None,
{
    proof {
        if code > 0xffff {
            lemma_decoded_codes_fit_16_bits(platform, code);
        }
    }
    match platform {
        Platform::Linux => linux::sc_to_key(code),
        Platform::MacOs => macos::sc_to_key(code),
        Platform::Windows => windows::sc_to_key(code),
        Platform::Web => web::sc_to_key(code),
    }
}

/// Translates a key into its canonical native code, or `None` where the
/// platform has no such key. The code that is given decodes to the key.
pub fn encode_scancode(platform: Platform, key: Key) -> (r: Option<u32>)
    ensures
        r == spec_encode(platform, key),
        r matches Some(code) ==> spec_decode(platform, code) == Some(key),
{
    match platform {
        Platform::Linux => linux::key_to_sc(key),
        Platform::MacOs => macos::key_to_sc(key),
        Platform::Windows => windows::key_to_sc(key),
        Platform::Web => web::key_to_sc(key),
    }
}

/// The code that names no key on a platform.
pub fn invalid_scancode(platform: Platform) -> (r: u32)
    ensures
        r == spec_invalid_scancode(platform),
{
    match platform {
        Platform::Linux => linux::SC_INVALID,
        Platform::MacOs => macos::SC_INVALID,
        Platform::Windows => windows::SC_INVALID,
        Platform::Web => web::SC_INVALID,
    }
}

/// On every platform, decoding the code that a key is encoded as gives the
/// key back.
pub proof fn lemma_encode_then_decode(platform: Platform, key: Key)
    requires
        spec_encode(platform, key) is Some,
    ensures
        spec_decode(platform, spec_encode(platform, key).unwrap()) == Some(key),
{
    match platform {
        Platform::Linux => linux::lemma_round_trip(key),
        Platform::MacOs => macos::lemma_round_trip(key),
        Platform::Windows => windows::lemma_round_trip(key),
        Platform::Web => web::lemma_round_trip(key),
    }
}

/// Every key that a platform can encode is the meaning of some code: the
/// codes that encoding produces cover all the keys that the platform has.
pub proof fn lemma_encodable_keys_are_decoded(platform: Platform, key: Key)
    requires
        spec_encode(platform, key) is Some,
    ensures
        exists|code: u32| spec_decode(platform, code) == Some(key),
{
    lemma_encode_then_decode(platform, key);
    let code = spec_encode(platform, key).unwrap();
    assert(spec_decode(platform, code) == Some(key));
}

/// A code and the canonical code of its key mean the same key. The two
/// codes may differ: the canonical code is one of the codes of the key, and
/// the table may hold others.
pub proof fn lemma_canonical_code_means_the_same(platform: Platform, code: u32, key: Key)
    requires
        spec_decode(platform, code) == Some(key),
        spec_encode(platform, key) is Some,
    ensures
        spec_decode(platform, spec_encode(platform, key).unwrap()) == spec_decode(platform, code),
{
    lemma_encode_then_decode(platform, key);
}

/// Two keys are never encoded as the same code.
pub proof fn lemma_encode_is_injective(platform: Platform, a: Key, b: Key)
    requires
        spec_encode(platform, a) is Some,
        spec_encode(platform, a) == spec_encode(platform, b),
    ensures
        a == b,
{
    lemma_encode_then_decode(platform, a);
    lemma_encode_then_decode(platform, b);
}

/// A code that names a key fits in 16 bits: every code above that is
/// decoded to `None`.
pub proof fn lemma_decoded_codes_fit_16_bits(platform: Platform, code: u32)
    requires
        code > 0xffff,
    ensures
        spec_decode(platform, code) is None,
{
    if spec_decode(platform, code) is Some {
        match platform {
            Platform::Linux => linux::lemma_codes_fit_16_bits(code),
            Platform::MacOs => macos::lemma_codes_fit_16_bits(code),
            Platform::Windows => windows::lemma_codes_fit_16_bits(code),
            Platform::Web => web::lemma_codes_fit_16_bits(code),
        }
    }
}

/// The invalid code of a platform names no key, and no key is encoded as
/// it.
pub proof fn lemma_invalid_scancode_names_no_key(platform: Platform, key: Key)
    ensures
        spec_decode(platform, spec_invalid_scancode(platform)) is None,
        spec_encode(platform, key) != Some(spec_invalid_scancode(platform)),
{
    match platform {
        Platform::Linux => linux::lemma_invalid_code(key),
        Platform::MacOs => macos::lemma_invalid_code(key),
        Platform::Windows => windows::lemma_invalid_code(key),
        Platform::Web => web::lemma_invalid_code(key),
    }
}

} // verus!
