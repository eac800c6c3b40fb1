//! Display names of keys, in the words of each platform.

use vstd::prelude::*;
use crate::input::{NamedKey, PhysicalKey, VirtualKey};
use crate::keys::Key;
use crate::platform::Platform;
use crate::scancode::{decode_scancode, spec_decode};
use crate::text::{
    ascii_uppercase,
    char_to_string,
    scancode_placeholder,
    spec_ascii_uppercase,
    spec_scancode_placeholder,
};

verus! {

/// The name that a platform gives to a named key, where it has one of its
/// own.
pub open spec fn spec_os_specific_key_name(platform: Platform, key: NamedKey) -> Option<Seq<char>> {
    match platform {
        Platform::Linux => crate::linux::spec_os_specific_key_name(key),
        Platform::MacOs => crate::macos::spec_os_specific_key_name(key),
        Platform::Windows => crate::windows::spec_os_specific_key_name(key),
        Platform::Web => crate::web::spec_os_specific_key_name(key),
    }
}

/// The name that a platform gives to a named key, or `None` where the key's
/// own name serves.
pub fn os_specific_key_name(platform: Platform, key: &NamedKey) -> (r: Option<&'static str>)
    ensures
        match r {
            Some(name) => spec_os_specific_key_name(platform, *key) == Some(name@),
            None => spec_os_specific_key_name(platform, *key) is None,
        },
{
    match platform {
        Platform::Linux => crate::linux::os_specific_key_name(key),
        Platform::MacOs => crate::macos::os_specific_key_name(key),
        Platform::Windows => crate::windows::os_specific_key_name(key),
        Platform::Web => crate::web::os_specific_key_name(key),
    }
}

/// The name of a virtual key: the platform's name of a named key or else
/// the key's own; typed text in ASCII upper case; a dead key's character;
/// the placeholder of a key that the platform could not name.
pub open spec fn spec_key_name(platform: Platform, key: VirtualKey) -> Seq<char> {
    match key {
        VirtualKey::Named(named) => match spec_os_specific_key_name(platform, named) {
            Some(name) => name,
            None => named.spec_name(),
        },
        VirtualKey::Character(text) => spec_ascii_uppercase(text@),
        VirtualKey::Unidentified(native) => native.spec_name(),
        VirtualKey::Dead(None) => "<unknown>"@,
        VirtualKey::Dead(Some(c)) => seq![c],
    }
}

/// A name for a virtual key that a person can read. Letters are in upper
/// case, and some keys have the name that the platform uses for them:
/// `Win` on Windows, `Command` on macOS.
pub fn key_name(platform: Platform, key: VirtualKey) -> (r: String)
    ensures
        r@ == spec_key_name(platform, key),
{
    match key {
        VirtualKey::Named(named) => match os_specific_key_name(platform, &named) {
            Some(name) => String::from_str(name),
            None => named.name(),
        },
        VirtualKey::Character(text) => ascii_uppercase(text.as_str()),
        VirtualKey::Unidentified(native) => native.name(),
        VirtualKey::Dead(None) => String::from_str("<unknown>"),
        VirtualKey::Dead(Some(c)) => char_to_string(c),
    }
}

/// The name of a physical key: the name that the platform found, or else
/// the key's fallback name.
pub open spec fn spec_physical_key_name(os_name: Option<Seq<char>>, physical_key: PhysicalKey) -> Seq<
    char,
> {
    match os_name {
        Some(name) => name,
        None => physical_key.spec_fallback_name(),
    }
}

/// A name for a physical key that a person can read. `os_name` is what the
/// platform's `try_physical_key_name` found. Without it the name is the
/// symbolic name of a known key, `SC` and the code of a bare native code,
/// and `<unknown>` where there is not even a code.
pub fn physical_key_name(os_name: Option<String>, physical_key: PhysicalKey) -> (r: String)
    ensures
        r@ == spec_physical_key_name(
            match os_name {
                Some(name) => Some(name@),
                None => None,
            },
            physical_key,
        ),
{
    match os_name {
        Some(name) => name,
        None => physical_key.fallback_name(),
    }
}

/// The short name that a platform's own table has for a key. The platforms
/// on which the system names keys have no such table.
pub open spec fn spec_curated_key_name(platform: Platform, key: Key) -> Option<Seq<char>> {
    match platform {
        Platform::MacOs => crate::macos::spec_curated_key_name(key),
        Platform::Web => crate::web::spec_curated_key_name(key),
        _ => None,
    }
}

/// The short name that a platform's own table has for a key.
pub fn curated_key_name(platform: Platform, key: Key) -> (r: Option<&'static str>)
    ensures
        match r {
            Some(name) => spec_curated_key_name(platform, key) == Some(name@),
            None => spec_curated_key_name(platform, key) is None,
        },
{
    match platform {
        Platform::MacOs => crate::macos::curated_key_name(key),
        Platform::Web => crate::web::curated_key_name(key),
        _ => None,
    }
}

/// The name of a key without help from the system: the short name from the
/// platform's table, or else the key's symbolic name.
pub open spec fn spec_static_key_name(platform: Platform, key: Key) -> Seq<char> {
    match spec_curated_key_name(platform, key) {
        Some(name) => name,
        None => key.spec_name(),
    }
}

/// The name that the system gave, where the platform is one on which the
/// system names keys and it did give one.
pub open spec fn spec_native_name(platform: Platform, native_name: Option<Seq<char>>) -> Option<
    Seq<char>,
> {
    if platform.spec_has_native_names() {
        native_name
    } else {
        None
    }
}

/// The display name of a key: the system's name where the platform has the
/// system name its keys and a name was given, else the short name from the
/// platform's table, else the key's symbolic name.
pub open spec fn spec_key_display_name(
    platform: Platform,
    key: Key,
    native_name: Option<Seq<char>>,
) -> Seq<char> {
    match spec_native_name(platform, native_name) {
        Some(name) => name,
        None => spec_static_key_name(platform, key),
    }
}

/// The display name of a key. `native_name` is the name that the system has
/// for the key under the active layout, if it was asked and had one; it is
/// read only on the platforms on which the system names keys. Every key
/// gets a name.
pub fn key_display_name(platform: Platform, key: Key, native_name: Option<String>) -> (r: String)
    ensures
        r@ == spec_key_display_name(
            platform,
            key,
            match native_name {
                Some(name) => Some(name@),
                None => None,
            },
        ),
{
    if platform.has_native_names() {
        if let Some(name) = native_name {
            return name;
        }
    }
    match curated_key_name(platform, key) {
        Some(name) => String::from_str(name),
        None => String::from_str(key.name()),
    }
}

/// The display name of a native code: the system's name as for a key, else
/// the name of the key that the code stands for, else the placeholder made
/// of `SC` and the code.
pub open spec fn spec_scancode_display_name(
    platform: Platform,
    code: u32,
    native_name: Option<Seq<char>>,
) -> Seq<char> {
    match spec_native_name(platform, native_name) {
        Some(name) => name,
        None => match spec_decode(platform, code) {
            Some(key) => spec_static_key_name(platform, key),
            None => spec_scancode_placeholder(code as nat),
        },
    }
}

/// The display name of a native code. `native_name` is as for
/// `key_display_name`. Every code gets a name: one that the platform's
/// table does not hold is called `SC` and its number.
pub fn scancode_display_name(platform: Platform, code: u32, native_name: Option<String>) -> (r: String)
    ensures
        r@ == spec_scancode_display_name(
            platform,
            code,
            match native_name {
                Some(name) => Some(name@),
                None => None,
            },
        ),
{
    if platform.has_native_names() {
        if let Some(name) = native_name {
            return name;
        }
    }
    match decode_scancode(platform, code) {
        Some(key) => match curated_key_name(platform, key) {
            Some(name) => String::from_str(name),
            None => String::from_str(key.name()),
        },
        None => scancode_placeholder(code),
    }
}

} // verus!
