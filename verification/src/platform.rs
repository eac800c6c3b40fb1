//! The supported platforms, and what each calls its modifiers.

use vstd::prelude::*;
use crate::text::same_text;

verus! {

/// Name of the Ctrl modifier, the same on every platform.
pub const CTRL_STR: &'static str = "Ctrl";

/// Name of the Shift modifier, the same on every platform.
pub const SHIFT_STR: &'static str = "Shift";

/// What stands between a modifier and whatever follows it.
pub const SEPARATOR: &'static str = " + ";

/// An operating system family with its own scancode numbering and its own
/// names for keys and modifiers.
#[derive(Debug, Copy, Clone, PartialEq, Eq, Hash, Structural)]
pub enum Platform {
    Linux,
    MacOs,
    Windows,
    Web,
}

impl Platform {
    /// The platform of a build target: Linux, macOS and Windows by the
    /// target's operating system, the web by the `wasm32` architecture
    /// under any other system. Other targets have no platform.
    pub open spec fn spec_for_target(target_os: Seq<char>, target_arch: Seq<char>) -> Option<Platform> {
        if target_os == "linux"@ {
            Some(Platform::Linux)
        } else if target_os == "macos"@ {
            Some(Platform::MacOs)
        } else if target_os == "windows"@ {
            Some(Platform::Windows)
        } else if target_arch == "wasm32"@ {
            Some(Platform::Web)
        } else {
            None
        }
    }

    /// The platform of a build target, given the names that Rust has for
    /// the target's operating system and architecture.
    pub fn for_target(target_os: &str, target_arch: &str) -> (r: Option<Platform>)
        ensures
            r == Platform::spec_for_target(target_os@, target_arch@),
    {
        if same_text(target_os, "linux") {
            Some(Platform::Linux)
        } else if same_text(target_os, "macos") {
            Some(Platform::MacOs)
        } else if same_text(target_os, "windows") {
            Some(Platform::Windows)
        } else if same_text(target_arch, "wasm32") {
            Some(Platform::Web)
        } else {
            None
        }
    }

    /// The platform's name for the Alt modifier.
    pub open spec fn spec_alt_str(self) -> Seq<char> {
        match self {
            Platform::Linux => crate::linux::ALT_STR@,
            Platform::MacOs => crate::macos::ALT_STR@,
            Platform::Windows => crate::windows::ALT_STR@,
            Platform::Web => crate::web::ALT_STR@,
        }
    }

    /// The platform's name for the Alt modifier.
    pub fn alt_str(self) -> (r: &'static str)
        ensures
            r@ == self.spec_alt_str(),
    {
        match self {
            Platform::Linux => crate::linux::ALT_STR,
            Platform::MacOs => crate::macos::ALT_STR,
            Platform::Windows => crate::windows::ALT_STR,
            Platform::Web => crate::web::ALT_STR,
        }
    }

    /// The platform's name for the logo modifier.
    pub open spec fn spec_logo_str(self) -> Seq<char> {
        match self {
            Platform::Linux => crate::linux::LOGO_STR@,
            Platform::MacOs => crate::macos::LOGO_STR@,
            Platform::Windows => crate::windows::LOGO_STR@,
            Platform::Web => crate::web::LOGO_STR@,
        }
    }

    /// The platform's name for the logo modifier.
    pub fn logo_str(self) -> (r: &'static str)
        ensures
            r@ == self.spec_logo_str(),
    {
        match self {
            Platform::Linux => crate::linux::LOGO_STR,
            Platform::MacOs => crate::macos::LOGO_STR,
            Platform::Windows => crate::windows::LOGO_STR,
            Platform::Web => crate::web::LOGO_STR,
        }
    }

    /// The order in which the platform writes modifiers, one character for
    /// each: `c` Ctrl, `s` Shift, `a` Alt, `m` logo.
    pub open spec fn spec_modifiers_order(self) -> Seq<char> {
        match self {
            Platform::Linux => crate::linux::MODIFIERS_ORDER@,
            Platform::MacOs => crate::macos::MODIFIERS_ORDER@,
            Platform::Windows => crate::windows::MODIFIERS_ORDER@,
            Platform::Web => crate::web::MODIFIERS_ORDER@,
        }
    }

    /// The order in which the platform writes modifiers.
    pub fn modifiers_order(self) -> (r: &'static str)
        ensures
            r@ == self.spec_modifiers_order(),
    {
        match self {
            Platform::Linux => crate::linux::MODIFIERS_ORDER,
            Platform::MacOs => crate::macos::MODIFIERS_ORDER,
            Platform::Windows => crate::windows::MODIFIERS_ORDER,
            Platform::Web => crate::web::MODIFIERS_ORDER,
        }
    }

    /// Whether the system itself names keys under the active layout. Where
    /// it does not, names come from a fixed table.
    pub open spec fn spec_has_native_names(self) -> bool {
        self == Platform::Linux || self == Platform::Windows
    }

    /// Whether the system itself names keys under the active layout.
    pub fn has_native_names(self) -> (r: bool)
        ensures
            r == self.spec_has_native_names(),
    {
        match self {
            Platform::Linux => true,
            Platform::Windows => true,
            _ => false,
        }
    }
}

} // verus!
