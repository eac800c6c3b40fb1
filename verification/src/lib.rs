//! Platform-aware keyboard key names and scancode translation.
//!
//! A scancode is the number under which an operating system reports a key
//! position, and every system numbers the positions in its own way. This
//! crate answers two questions for Linux, macOS, Windows and the web: which
//! key a scancode means, and what a key or a set of modifiers is called
//! there.
//!
//! - [`keys`] has [`Key`], the physical keys by position.
//! - [`scancode`] translates between scancodes and keys, with one pair of
//!   tables for each [`Platform`].
//! - [`modifiers`] writes prefixes such as `Ctrl + Shift + `.
//! - [`names`] names keys; [`linux`], [`macos`], [`web`] and [`windows`]
//!   hold what is particular to each platform.
//! - [`keymap`] decides how the keyboard layout is fetched on Linux.
//! - [`input`] has the keys as a windowing library reports them, and
//!   [`text`] the numbers and letters that names are made of.
//!
//! Nothing here touches the system. Where a name depends on the user's
//! layout, the caller asks the system and hands over the answer.

pub mod input;
pub mod keymap;
pub mod keys;
pub mod linux;
pub mod macos;
pub mod modifiers;
pub mod names;
pub mod platform;
pub mod scancode;
pub mod text;
pub mod web;
pub mod windows;

pub use input::{NamedKey, NativeKey, NativeKeyCode, PhysicalKey, VirtualKey};
pub use keys::Key;
pub use modifiers::mods_prefix_string;
pub use names::{key_display_name, key_name, physical_key_name, scancode_display_name};
pub use platform::{Platform, CTRL_STR, SHIFT_STR};
pub use scancode::{decode_scancode, encode_scancode};
