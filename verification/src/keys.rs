//! Keyboard state the low-level hook cannot observe on its own.
//!
//! A key pressed before the trigger has already had its down event delivered,
//! so the state machine can never see it. `GetAsyncKeyState` is the only way
//! to notice; which keys to ask about, and how to read its answer, is here.
use vstd::prelude::*;

use crate::inject::{VK_LCONTROL, VK_LSHIFT, VK_LWIN, VK_RCONTROL, VK_RSHIFT, VK_RWIN};
use crate::machine::{VK_LMENU, VK_RMENU};

verus! {

/// The modifiers whose being held spoils a solo press. `VK_APPS` is not one:
/// a held Menu key is not what "another modifier was already down" means.
pub open spec fn modifier_keys() -> Seq<u16> {
    seq![VK_LCONTROL, VK_RCONTROL, VK_LSHIFT, VK_RSHIFT, VK_LMENU, VK_RMENU, VK_LWIN, VK_RWIN]
}

/// The modifiers to ask about when `trigger_vk` goes down, in order.
///
/// The trigger itself has to be excluded, or a Ctrl, Shift or Win trigger
/// reports itself as held and never fires.
pub fn modifiers_to_check(trigger_vk: u16) -> (r: Vec<u16>)
    ensures
        r@ == modifier_keys().filter(|vk: u16| vk != trigger_vk),
{
    let all = [VK_LCONTROL, VK_RCONTROL, VK_LSHIFT, VK_RSHIFT, VK_LMENU, VK_RMENU, VK_LWIN, VK_RWIN];
    assert(all@ =~= modifier_keys());
    let ghost keep = |vk: u16| vk != trigger_vk;
    let mut out: Vec<u16> = Vec::new();
    let mut i: usize = 0;
    while i < 8
        invariant
            all@ == modifier_keys(),
            keep == (|vk: u16| vk != trigger_vk),
            i <= 8,
            out@ == modifier_keys().take(i as int).filter(keep),
        decreases 8 - i,
    {
        reveal_with_fuel(Seq::<_>::filter, 1);
        if all[i] != trigger_vk {
            out.push(all[i]);
        }
        assert(modifier_keys().take(i + 1).drop_last() =~= modifier_keys().take(i as int));
        i += 1;
    }
    assert(modifier_keys().take(8) =~= modifier_keys());
    out
}

/// Whether a `GetAsyncKeyState` answer says the key is down: its top bit.
pub fn key_is_down(state: i16) -> (r: bool)
    ensures
        r == (state < 0),
{
    let bits = state as u16;
    assert((state as u16) & 0x8000 != 0 <==> state < 0) by (bit_vector);
    bits & 0x8000 != 0
}

/// When a trigger goes down, the hook asks about exactly the eight
/// left/right modifiers other than the trigger itself: Ctrl (0xA2, 0xA3),
/// Shift (0xA0, 0xA1), Alt (0xA4, 0xA5) and Win (0x5B, 0x5C).
pub proof fn law_every_other_modifier_is_asked_about(trigger_vk: u16, k: u16)
    ensures
        modifier_keys().filter(|vk: u16| vk != trigger_vk).contains(k) <==> (k != trigger_vk && (k
            == 0xA2 || k == 0xA3 || k == 0xA0 || k == 0xA1 || k == 0xA4 || k == 0xA5 || k == 0x5B
            || k == 0x5C)),
{
    let keep = |vk: u16| vk != trigger_vk;
    let all = modifier_keys();
    if modifier_keys().filter(keep).contains(k) {
        all.lemma_filter_contains_rev(keep, k);
        let i = choose|i: int| 0 <= i < all.filter(keep).len() && all.filter(keep)[i] == k;
        all.lemma_filter_pred(keep, i);
    }
    if k != trigger_vk && (k == 0xA2 || k == 0xA3 || k == 0xA0 || k == 0xA1 || k == 0xA4 || k == 0xA5
        || k == 0x5B || k == 0x5C) {
        let i: int = if k == 0xA2 {
            0
        } else if k == 0xA3 {
            1
        } else if k == 0xA0 {
            2
        } else if k == 0xA1 {
            3
        } else if k == 0xA4 {
            4
        } else if k == 0xA5 {
            5
        } else if k == 0x5B {
            6
        } else {
            7
        };
        assert(all[i] == k);
        all.lemma_filter_contains(keep, i);
    }
}

} // verus!
