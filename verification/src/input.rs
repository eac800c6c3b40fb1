//! Keys as a windowing library reports them: a physical key is a known
//! position or a bare native code, a virtual key is a named key, typed text,
//! a dead key or a bare native code.

use vstd::prelude::*;
use crate::keys::Key;

verus! {

/// A native code that came without a known key, tagged with the platform
/// that produced it.
#[derive(Debug, Copy, Clone, PartialEq, Eq, Hash, Structural)]
pub enum NativeKeyCode {
    Unidentified,
    Android(u32),
    MacOS(u16),
    Windows(u16),
    Xkb(u32),
}

/// A key by position: one of the known keys, or a native code that names
/// none of them.
#[derive(Debug, Copy, Clone, PartialEq, Eq, Hash, Structural)]
pub enum PhysicalKey {
    Code(Key),
    Unidentified(NativeKeyCode),
}

/// What a platform reports of a virtual key that it cannot name.
#[derive(Debug, Clone, PartialEq, Eq, Hash)]
pub enum NativeKey {
    Unidentified,
    Android(u32),
    MacOS(u16),
    Windows(u16),
    Xkb(u32),
    Web(String),
}

/// A virtual key with a name of its own. The keys that some platform calls
/// by another name are variants; every other named key is `Other` and
/// carries its symbolic name.
#[derive(Debug, Clone, PartialEq, Eq, Hash)]
pub enum NamedKey {
    Alt,
    AltGraph,
    ArrowDown,
    ArrowLeft,
    ArrowRight,
    ArrowUp,
    Backspace,
    Delete,
    Enter,
    Escape,
    Super,
    Other(String),
}

/// A key by meaning, as the active layout gives it.
#[derive(Debug, Clone, PartialEq, Eq, Hash)]
pub enum VirtualKey {
    Named(NamedKey),
    Character(String),
    Unidentified(NativeKey),
    Dead(Option<char>),
}

impl NamedKey {
    /// The key's symbolic name.
    pub open spec fn spec_name(self) -> Seq<char> {
        match self {
            NamedKey::Alt => "Alt"@,
            NamedKey::AltGraph => "AltGraph"@,
            NamedKey::ArrowDown => "ArrowDown"@,
            NamedKey::ArrowLeft => "ArrowLeft"@,
            NamedKey::ArrowRight => "ArrowRight"@,
            NamedKey::ArrowUp => "ArrowUp"@,
            NamedKey::Backspace => "Backspace"@,
            NamedKey::Delete => "Delete"@,
            NamedKey::Enter => "Enter"@,
            NamedKey::Escape => "Escape"@,
            NamedKey::Super => "Super"@,
            NamedKey::Other(name) => name@,
        }
    }

    /// The key's symbolic name.
    pub fn name(&self) -> (r: String)
        ensures
            r@ == self.spec_name(),
    {
        match self {
            NamedKey::Alt => String::from_str("Alt"),
            NamedKey::AltGraph => String::from_str("AltGraph"),
            NamedKey::ArrowDown => String::from_str("ArrowDown"),
            NamedKey::ArrowLeft => String::from_str("ArrowLeft"),
            NamedKey::ArrowRight => String::from_str("ArrowRight"),
            NamedKey::ArrowUp => String::from_str("ArrowUp"),
            NamedKey::Backspace => String::from_str("Backspace"),
            NamedKey::Delete => String::from_str("Delete"),
            NamedKey::Enter => String::from_str("Enter"),
            NamedKey::Escape => String::from_str("Escape"),
            NamedKey::Super => String::from_str("Super"),
            NamedKey::Other(name) => name.clone(),
        }
    }
}

impl NativeKeyCode {
    /// The code's fallback name: `SC` and the code in decimal, or
    /// `<unknown>` where there is no code.
    pub open spec fn spec_name(self) -> Seq<char> {
        match self {
            NativeKeyCode::Unidentified => "<unknown>"@,
            NativeKeyCode::Android(sc) => crate::text::spec_scancode_placeholder(sc as nat),
            NativeKeyCode::MacOS(sc) => crate::text::spec_scancode_placeholder(sc as nat),
            NativeKeyCode::Windows(sc) => crate::text::spec_scancode_placeholder(sc as nat),
            NativeKeyCode::Xkb(sc) => crate::text::spec_scancode_placeholder(sc as nat),
        }
    }

    /// The code's fallback name.
    pub fn name(self) -> (r: String)
        ensures
            r@ == self.spec_name(),
    {
        match self {
            NativeKeyCode::Unidentified => String::from_str("<unknown>"),
            NativeKeyCode::Android(sc) => crate::text::scancode_placeholder(sc),
            NativeKeyCode::MacOS(sc) => crate::text::scancode_placeholder(sc as u32),
            NativeKeyCode::Windows(sc) => crate::text::scancode_placeholder(sc as u32),
            NativeKeyCode::Xkb(sc) => crate::text::scancode_placeholder(sc),
        }
    }
}

impl NativeKeyCode {
    /// The code as a debug listing shows it: the platform's tag and the code
    /// in hexadecimal.
    pub open spec fn spec_debug_name(self) -> Seq<char> {
        match self {
            NativeKeyCode::Unidentified => "Unidentified"@,
            NativeKeyCode::Android(sc) => "Android("@ + crate::text::spec_hex_code(sc as nat) + ")"@,
            NativeKeyCode::MacOS(sc) => "MacOS("@ + crate::text::spec_hex_code(sc as nat) + ")"@,
            NativeKeyCode::Windows(sc) => "Windows("@ + crate::text::spec_hex_code(sc as nat) + ")"@,
            NativeKeyCode::Xkb(sc) => "Xkb("@ + crate::text::spec_hex_code(sc as nat) + ")"@,
        }
    }

    /// The code as a debug listing shows it, such as `Xkb(0x001E)`.
    pub fn debug_name(self) -> (r: String)
        ensures
            r@ == self.spec_debug_name(),
    {
        match self {
            NativeKeyCode::Unidentified => String::from_str("Unidentified"),
            NativeKeyCode::Android(sc) => tagged("Android(", crate::text::hex_code(sc)),
            NativeKeyCode::MacOS(sc) => tagged("MacOS(", crate::text::hex_code(sc as u32)),
            NativeKeyCode::Windows(sc) => tagged("Windows(", crate::text::hex_code(sc as u32)),
            NativeKeyCode::Xkb(sc) => tagged("Xkb(", crate::text::hex_code(sc)),
        }
    }
}

impl PhysicalKey {
    /// The key as a debug listing shows it.
    pub open spec fn spec_debug_name(self) -> Seq<char> {
        match self {
            PhysicalKey::Code(key) => "Code("@ + key.spec_name() + ")"@,
            PhysicalKey::Unidentified(code) => "Unidentified("@ + code.spec_debug_name() + ")"@,
        }
    }

    /// The key as a debug listing shows it, such as `Code(KeyA)` or
    /// `Unidentified(Xkb(0x001E))`.
    pub fn debug_name(self) -> (r: String)
        ensures
            r@ == self.spec_debug_name(),
    {
        match self {
            PhysicalKey::Code(key) => tagged("Code(", String::from_str(key.name())),
            PhysicalKey::Unidentified(code) => tagged("Unidentified(", code.debug_name()),
        }
    }

    /// The name that serves where the platform has none: the symbolic name
    /// of a known key, the placeholder of a bare code.
    pub open spec fn spec_fallback_name(self) -> Seq<char> {
        match self {
            PhysicalKey::Code(key) => key.spec_name(),
            PhysicalKey::Unidentified(code) => code.spec_name(),
        }
    }

    /// The name that serves where the platform has none.
    pub fn fallback_name(self) -> (r: String)
        ensures
            r@ == self.spec_fallback_name(),
    {
        match self {
            PhysicalKey::Code(key) => String::from_str(key.name()),
            PhysicalKey::Unidentified(code) => code.name(),
        }
    }
}

/// `open`, then `inner`, then a closing bracket.
fn tagged(open: &str, inner: String) -> (r: String)
    ensures
        r@ == open@ + inner@ + ")"@,
{
    let mut s = String::from_str(open);
    s.append(inner.as_str());
    s.append(")");
    s
}

impl NativeKey {
    /// The fallback name: `SC` and the code in decimal, the text that the
    /// browser gave, or `<unknown>`.
    pub open spec fn spec_name(self) -> Seq<char> {
        match self {
            NativeKey::Unidentified => "<unknown>"@,
            NativeKey::Android(sc) => crate::text::spec_scancode_placeholder(sc as nat),
            NativeKey::MacOS(sc) => crate::text::spec_scancode_placeholder(sc as nat),
            NativeKey::Windows(sc) => crate::text::spec_scancode_placeholder(sc as nat),
            NativeKey::Xkb(sc) => crate::text::spec_scancode_placeholder(sc as nat),
            NativeKey::Web(text) => text@,
        }
    }

    /// The fallback name.
    pub fn name(&self) -> (r: String)
        ensures
            r@ == self.spec_name(),
    {
        match self {
            NativeKey::Unidentified => String::from_str("<unknown>"),
            NativeKey::Android(sc) => crate::text::scancode_placeholder(*sc),
            NativeKey::MacOS(sc) => crate::text::scancode_placeholder(*sc as u32),
            NativeKey::Windows(sc) => crate::text::scancode_placeholder(*sc as u32),
            NativeKey::Xkb(sc) => crate::text::scancode_placeholder(*sc),
            NativeKey::Web(text) => text.clone(),
        }
    }
}

} // verus!
