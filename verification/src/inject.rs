//! What gets injected through `SendInput`, and in what order.
//!
//! Injected events come back through our own low-level hook, so they carry
//! `INJECT_TAG` in `dwExtraInfo` to identify them. Real keyboards were measured
//! to use a `dwExtraInfo` of 0 consistently.
//!
//! Turning a `KeyStroke` into an `INPUT` and sending it is the Win32 side's
//! job; which strokes go out, and how each one's flags are worked out, is here.
use vstd::prelude::*;

use crate::machine::{VK_LMENU, VK_RMENU};

verus! {

/// Marker for events we injected ourselves.
pub const INJECT_TAG: usize = 0xA170_66E1;

/// `KEYEVENTF_EXTENDEDKEY`
pub const KEYEVENTF_EXTENDEDKEY: u32 = 0x0001;

/// `KEYEVENTF_KEYUP`
pub const KEYEVENTF_KEYUP: u32 = 0x0002;

/// `VK_APPS`, the context-menu key.
pub const VK_APPS: u16 = 0x5D;

/// `VK_LCONTROL`
pub const VK_LCONTROL: u16 = 0xA2;

/// `VK_RCONTROL`
pub const VK_RCONTROL: u16 = 0xA3;

/// `VK_LSHIFT`
pub const VK_LSHIFT: u16 = 0xA0;

/// `VK_RSHIFT`
pub const VK_RSHIFT: u16 = 0xA1;

/// `VK_LWIN`
pub const VK_LWIN: u16 = 0x5B;

/// `VK_RWIN`
pub const VK_RWIN: u16 = 0x5C;

/// One key event to inject: a virtual key going down or coming up.
#[derive(Debug, Clone, Copy, PartialEq, Eq, Structural)]
pub struct KeyStroke {
    pub vk: u16,
    pub up: bool,
}

/// The scan code and extendedness of a key, from what
/// `MapVirtualKeyW(vk, MAPVK_VK_TO_VSC_EX)` returned for it (`mapped`).
///
/// That call returns the 0xE0 prefix of an extended key in the high byte,
/// which is the only self-maintaining way to get this right: right Alt, right
/// Ctrl and both Win keys are extended, left Alt and both Shifts are not.
/// `wScan` takes the low byte only; the prefix travels as the flag instead.
///
/// Pause reports 0xE11D, whose prefix is 0xE1 rather than 0xE0, so it comes
/// back as "not extended". It is never injected and is not a trigger.
pub fn scan_code(mapped: u32) -> (r: (u16, bool))
    ensures
        r.0 == mapped % 256,
        r.1 == (mapped / 256 == 0xE0),
{
    let scan = (mapped as u16) & 0xFF;
    let extended = (mapped >> 8) == 0xE0;
    assert(((mapped as u16) & 0xFF) == mapped % 256) by (bit_vector);
    assert((mapped >> 8) == mapped / 256) by (bit_vector);
    (scan, extended)
}

/// Whether a key is extended, from its `MAPVK_VK_TO_VSC_EX` mapping.
/// Reported by the probes.
pub fn is_extended(mapped: u32) -> (r: bool)
    ensures
        r == (mapped / 256 == 0xE0),
{
    scan_code(mapped).1
}

/// The scan code a key is injected with, from its `MAPVK_VK_TO_VSC_EX`
/// mapping. Zero means it has none.
///
/// Reported by the probes so that a measurement record says what was
/// actually injected rather than what was asked for.
pub fn scan_of(mapped: u32) -> (r: u16)
    ensures
        r == mapped % 256,
{
    scan_code(mapped).0
}

/// The `dwFlags` of a key event: `KEYEVENTF_KEYUP` for an up,
/// `KEYEVENTF_EXTENDEDKEY` for an extended key.
pub fn key_flags(up: bool, extended: bool) -> (r: u32)
    ensures
        r == (if up {
            KEYEVENTF_KEYUP
        } else {
            0
        }) + (if extended {
            KEYEVENTF_EXTENDEDKEY
        } else {
            0
        }),
{
    let mut flags: u32 = 0;
    if up {
        flags = flags + KEYEVENTF_KEYUP;
    }
    if extended {
        flags = flags + KEYEVENTF_EXTENDEDKEY;
    }
    flags
}

/// How a solo press is robbed of its usual side effect.
///
/// Two shapes, because Windows produces the two side effects by two different
/// mechanisms: the split is between keys the OS tracks as "pressed alone" and
/// keys it does not.
#[derive(Debug, Clone, Copy, PartialEq, Eq, Structural)]
pub enum Suppression {
    /// `[dummy down, dummy up, TRIGGER up]`, in one `SendInput`.
    ///
    /// Alt and Win are tracked by Windows as "pressed alone", and the dummy is
    /// what breaks that. Their up must still be delivered, or the modifier
    /// stays logically held and every later keystroke turns into a chord.
    DummyThenUp,
    /// Nothing. Block the real up and inject no replacement.
    ///
    /// `VK_APPS` has no "pressed alone" state to break: `DefWindowProc` turns
    /// any `WM_KEYUP` for it into `WM_CONTEXTMENU`. Withholding the up is only
    /// safe because `VK_APPS` is not a modifier.
    Swallow,
}

/// Which shape a trigger needs: only the context-menu key is swallowed.
pub open spec fn suppression_of(trigger_vk: u16) -> Suppression {
    if trigger_vk == VK_APPS {
        Suppression::Swallow
    } else {
        Suppression::DummyThenUp
    }
}

/// Which shape `trigger_vk` needs.
pub fn suppression_for(trigger_vk: u16) -> (r: Suppression)
    ensures
        r == suppression_of(trigger_vk),
{
    if trigger_vk == VK_APPS {
        Suppression::Swallow
    } else {
        Suppression::DummyThenUp
    }
}

/// The strokes that replace a trigger's blocked up.
pub open spec fn suppression_strokes(dummy_vk: u16, trigger_vk: u16) -> Seq<KeyStroke> {
    match suppression_of(trigger_vk) {
        Suppression::DummyThenUp => seq![
            KeyStroke { vk: dummy_vk, up: false },
            KeyStroke { vk: dummy_vk, up: true },
            KeyStroke { vk: trigger_vk, up: true },
        ],
        Suppression::Swallow => Seq::empty(),
    }
}

/// The events to inject in place of the trigger's blocked up. May be empty.
///
/// The caller must block the real up, and must send this — plus anything it
/// appends — in a single `SendInput`.
pub fn suppress(dummy_vk: u16, trigger_vk: u16) -> (r: Vec<KeyStroke>)
    ensures
        r@ == suppression_strokes(dummy_vk, trigger_vk),
{
    match suppression_for(trigger_vk) {
        Suppression::DummyThenUp => {
            let r = vec![
                KeyStroke { vk: dummy_vk, up: false },
                KeyStroke { vk: dummy_vk, up: true },
                KeyStroke { vk: trigger_vk, up: true },
            ];
            assert(r@ =~= suppression_strokes(dummy_vk, trigger_vk));
            r
        },
        Suppression::Swallow => {
            let r: Vec<KeyStroke> = Vec::new();
            assert(r@ =~= suppression_strokes(dummy_vk, trigger_vk));
            r
        },
    }
}

/// The keys released on failure, in the order they are released.
pub open spec fn released_keys() -> Seq<u16> {
    seq![VK_LMENU, VK_RMENU, VK_LCONTROL, VK_RCONTROL, VK_LSHIFT, VK_RSHIFT, VK_LWIN, VK_RWIN]
}

/// The keys `release_stuck_keys` lets go of.
///
/// Must cover every `Suppression::DummyThenUp` trigger: those keys have their
/// real up blocked and a replacement injected, so a partly landed injection
/// can strand them down. `VK_APPS` is deliberately not here, even though it
/// is a trigger: its up is withheld by design, and injecting one is exactly
/// what opens the context menu.
pub fn released_on_failure() -> (r: [u16; 8])
    ensures
        r@ == released_keys(),
{
    let r = [VK_LMENU, VK_RMENU, VK_LCONTROL, VK_RCONTROL, VK_LSHIFT, VK_RSHIFT, VK_LWIN, VK_RWIN];
    assert(r@ =~= released_keys());
    r
}

/// An up for every key in `released_keys`, in that order: the batch that
/// must also go out on abnormal exit paths. A key left stuck down is the
/// worst outcome here.
pub fn release_batch() -> (r: Vec<KeyStroke>)
    ensures
        r@ == released_keys().map_values(|vk: u16| KeyStroke { vk, up: true }),
{
    let keys = released_on_failure();
    let mut batch: Vec<KeyStroke> = Vec::new();
    let mut i: usize = 0;
    while i < 8
        invariant
            keys@ == released_keys(),
            i <= 8,
            batch@ == released_keys().subrange(0, i as int).map_values(
                |vk: u16| KeyStroke { vk, up: true },
            ),
        decreases 8 - i,
    {
        batch.push(KeyStroke { vk: keys[i], up: true });
        i += 1;
        assert(batch@ =~= released_keys().subrange(0, i as int).map_values(
            |vk: u16| KeyStroke { vk, up: true },
        ));
    }
    assert(released_keys().subrange(0, 8) =~= released_keys());
    batch
}

/// Every trigger whose up is injected can be released on failure, and the
/// one whose up is withheld on purpose never is, so the release can neither
/// leave a modifier stuck down nor perform the side effect a swallow
/// prevents.
pub proof fn law_release_list_matches_suppression(k: crate::settings::TriggerKey)
    ensures
        released_keys().contains(crate::settings::trigger_vk(k)) <==> suppression_of(
            crate::settings::trigger_vk(k),
        ) == Suppression::DummyThenUp,
{
    let keys = released_keys();
    let vk = crate::settings::trigger_vk(k);
    if suppression_of(vk) == Suppression::DummyThenUp {
        if vk == VK_LMENU {
            assert(keys[0] == vk);
        } else if vk == VK_RMENU {
            assert(keys[1] == vk);
        } else if vk == VK_LCONTROL {
            assert(keys[2] == vk);
        } else if vk == VK_RCONTROL {
            assert(keys[3] == vk);
        } else if vk == VK_LSHIFT {
            assert(keys[4] == vk);
        } else if vk == VK_RSHIFT {
            assert(keys[5] == vk);
        } else if vk == VK_LWIN {
            assert(keys[6] == vk);
        } else {
            assert(keys[7] == vk);
        }
    }
}

/// What a batch of sends reported: `(delivered, expected)`. An empty batch
/// sends nothing and reports `(0, 0)`.
pub fn batch_report(len: usize, delivered: u32) -> (r: (u32, u32))
    requires
        len <= u32::MAX,
    ensures
        r == (if len == 0 {
            (0u32, 0u32)
        } else {
            (delivered, len as u32)
        }),
{
    if len == 0 {
        (0, 0)
    } else {
        (delivered, len as u32)
    }
}

} // verus!
