//! Modifier prefixes such as `Ctrl + Shift + `, in the platform's words and
//! order.

use vstd::prelude::*;
use crate::platform::{Platform, CTRL_STR, SEPARATOR, SHIFT_STR};

verus! {

/// What one modifier adds to the prefix: its word and the separator if it
/// is held, nothing if it is not.
pub open spec fn spec_part(held: bool, word: Seq<char>) -> Seq<char> {
    if held {
        word + SEPARATOR@
    } else {
        Seq::empty()
    }
}

/// What the modifier that an order character stands for adds to the
/// prefix. A character that stands for none adds nothing.
pub open spec fn spec_part_of(
    platform: Platform,
    ch: char,
    shift: bool,
    ctrl: bool,
    alt: bool,
    logo: bool,
) -> Seq<char> {
    if ch == 's' {
        spec_part(shift, SHIFT_STR@)
    } else if ch == 'c' {
        spec_part(ctrl, CTRL_STR@)
    } else if ch == 'a' {
        spec_part(alt, platform.spec_alt_str())
    } else if ch == 'm' {
        spec_part(logo, platform.spec_logo_str())
    } else {
        Seq::empty()
    }
}

/// The parts of the modifiers that `order` lists, in that order.
pub open spec fn spec_prefix_in_order(
    platform: Platform,
    order: Seq<char>,
    shift: bool,
    ctrl: bool,
    alt: bool,
    logo: bool,
) -> Seq<char>
    decreases order.len(),
{
    if order.len() == 0 {
        Seq::empty()
    } else {
        spec_prefix_in_order(platform, order.drop_last(), shift, ctrl, alt, logo) + spec_part_of(
            platform,
            order.last(),
            shift,
            ctrl,
            alt,
            logo,
        )
    }
}

/// The prefix for a set of modifiers: Ctrl first and the logo key last
/// everywhere; between them Shift before Alt, but on macOS Option before
/// Shift. Every modifier that is held is followed by the separator, the
/// last one too.
pub open spec fn spec_mods_prefix(
    platform: Platform,
    shift: bool,
    ctrl: bool,
    alt: bool,
    logo: bool,
) -> Seq<char> {
    let ctrl_part = spec_part(ctrl, CTRL_STR@);
    let shift_part = spec_part(shift, SHIFT_STR@);
    let alt_part = spec_part(alt, platform.spec_alt_str());
    let logo_part = spec_part(logo, platform.spec_logo_str());
    if platform == Platform::MacOs {
        ctrl_part + alt_part + shift_part + logo_part
    } else {
        ctrl_part + shift_part + alt_part + logo_part
    }
}

/// Going through the platform's order character by character gives the
/// prefix as `spec_mods_prefix` states it.
pub proof fn lemma_prefix_follows_order(
    platform: Platform,
    shift: bool,
    ctrl: bool,
    alt: bool,
    logo: bool,
)
    ensures
        spec_prefix_in_order(platform, platform.spec_modifiers_order(), shift, ctrl, alt, logo)
            == spec_mods_prefix(platform, shift, ctrl, alt, logo),
{
    reveal_strlit("csam");
    reveal_strlit("casm");
    let order = platform.spec_modifiers_order();
    assert(order.len() == 4);
    let o3 = order.drop_last();
    let o2 = o3.drop_last();
    let o1 = o2.drop_last();
    let o0 = o1.drop_last();
    assert(o0.len() == 0);
    let p0 = spec_prefix_in_order(platform, o0, shift, ctrl, alt, logo);
    let p1 = spec_prefix_in_order(platform, o1, shift, ctrl, alt, logo);
    let p2 = spec_prefix_in_order(platform, o2, shift, ctrl, alt, logo);
    let p3 = spec_prefix_in_order(platform, o3, shift, ctrl, alt, logo);
    let p4 = spec_prefix_in_order(platform, order, shift, ctrl, alt, logo);
    assert(p0 == Seq::<char>::empty());
    assert(p1 == p0 + spec_part_of(platform, o1.last(), shift, ctrl, alt, logo));
    assert(p2 == p1 + spec_part_of(platform, o2.last(), shift, ctrl, alt, logo));
    assert(p3 == p2 + spec_part_of(platform, o3.last(), shift, ctrl, alt, logo));
    assert(p4 == p3 + spec_part_of(platform, order.last(), shift, ctrl, alt, logo));
    assert(p4 =~= spec_mods_prefix(platform, shift, ctrl, alt, logo));
}

/// With no modifier held the prefix is empty, on every platform.
pub proof fn lemma_no_modifiers_no_prefix(platform: Platform)
    ensures
        spec_mods_prefix(platform, false, false, false, false) == Seq::<char>::empty(),
{
    assert(spec_mods_prefix(platform, false, false, false, false) =~= Seq::<char>::empty());
}

/// Ctrl is written first and the logo key last, on every platform: taking
/// either away from a set of modifiers takes its part from that end of the
/// prefix and changes nothing else.
pub proof fn lemma_ctrl_first_logo_last(
    platform: Platform,
    shift: bool,
    ctrl: bool,
    alt: bool,
    logo: bool,
)
    ensures
        spec_mods_prefix(platform, shift, ctrl, alt, logo) == spec_part(ctrl, CTRL_STR@)
            + spec_mods_prefix(platform, shift, false, alt, logo),
        spec_mods_prefix(platform, shift, ctrl, alt, logo) == spec_mods_prefix(platform, shift, ctrl, alt, false)
            + spec_part(logo, platform.spec_logo_str()),
{
    let ctrl_part = spec_part(ctrl, CTRL_STR@);
    let logo_part = spec_part(logo, platform.spec_logo_str());
    let whole = spec_mods_prefix(platform, shift, ctrl, alt, logo);
    assert(whole =~= ctrl_part + spec_mods_prefix(platform, shift, false, alt, logo));
    assert(whole =~= spec_mods_prefix(platform, shift, ctrl, alt, false) + logo_part);
}

/// Between Ctrl and the logo key, Shift is written before Alt; only macOS
/// writes Option before Shift.
pub proof fn lemma_order_of_shift_and_alt(platform: Platform, shift: bool, alt: bool)
    ensures
        spec_mods_prefix(platform, shift, false, alt, false) == if platform == Platform::MacOs {
            spec_part(alt, platform.spec_alt_str()) + spec_part(shift, SHIFT_STR@)
        } else {
            spec_part(shift, SHIFT_STR@) + spec_part(alt, platform.spec_alt_str())
        },
{
    let shift_part = spec_part(shift, SHIFT_STR@);
    let alt_part = spec_part(alt, platform.spec_alt_str());
    let whole = spec_mods_prefix(platform, shift, false, alt, false);
    if platform == Platform::MacOs {
        assert(whole =~= alt_part + shift_part);
    } else {
        assert(whole =~= shift_part + alt_part);
    }
}

/// The prefix for the modifiers that are held, in the platform's words and
/// order: `Ctrl + Shift + Alt + Win + ` on Windows, `Ctrl + Option + Shift +
/// Cmd + ` on macOS. The prefix ends in the separator, for the key's name
/// to follow it.
pub fn mods_prefix_string(
    platform: Platform,
    shift: bool,
    ctrl: bool,
    alt: bool,
    logo: bool,
) -> (ret: String)
    ensures
        ret@ == spec_mods_prefix(platform, shift, ctrl, alt, logo),
{
    let order = platform.modifiers_order();
    let n = order.unicode_len();
    let mut ret = String::new();
    let mut i: usize = 0;
    while i < n
        invariant
            i <= n,
            n == order@.len(),
            ret@ == spec_prefix_in_order(platform, order@.take(i as int), shift, ctrl, alt, logo),
        decreases n - i,
    {
        let ch = order.get_char(i);
        let ghost before = ret@;
        if ch == 's' {
            if shift {
                ret.append(SHIFT_STR);
                ret.append(SEPARATOR);
            }
        } else if ch == 'c' {
            if ctrl {
                ret.append(CTRL_STR);
                ret.append(SEPARATOR);
            }
        } else if ch == 'a' {
            if alt {
                ret.append(platform.alt_str());
                ret.append(SEPARATOR);
            }
        } else if ch == 'm' {
            if logo {
                ret.append(platform.logo_str());
                ret.append(SEPARATOR);
            }
        }
        proof {
            let taken = order@.take(i as int + 1);
            assert(taken.drop_last() =~= order@.take(i as int));
            assert(taken.last() == ch);
            assert(ret@ =~= before + spec_part_of(platform, ch, shift, ctrl, alt, logo));
        }
        i += 1;
    }
    proof {
        assert(order@.take(n as int) =~= order@);
        lemma_prefix_follows_order(platform, shift, ctrl, alt, logo);
    }
    ret
}

} // verus!
