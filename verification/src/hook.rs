//! What the app injects when a solo press completes.
//!
//! The hook thread itself — the message loop, reinstalling, the foreground
//! WinEvent — is Win32 plumbing. The one decision in it is the batch that
//! replaces a fired trigger's release, which is here.
use vstd::prelude::*;

use crate::ime::{open_strokes, set_open_strokes, side_turns_on};
use crate::inject::{suppress, suppression_strokes, KeyStroke};
use crate::machine::Side;

verus! {

/// The suppression, then the IME switch for `side`.
pub open spec fn fire_strokes(side: Side, dummy_vk: u16, trigger_vk: u16) -> Seq<KeyStroke> {
    suppression_strokes(dummy_vk, trigger_vk) + open_strokes(side_turns_on(side))
}

/// Suppress the trigger's usual side effect and switch the IME, as one batch
/// for a single `SendInput` call.
///
/// The order matters, so it has to be one call: `SendInput` guarantees the
/// whole array is delivered without other input interleaving. The IME keys go
/// after the suppression, never before: injected while the trigger is still
/// held they would read as a chord, and Win+key chords are hotkeys.
///
/// How many events that is depends on the trigger — a swallowed trigger
/// contributes none — so the caller compares what was sent against the
/// batch's own length.
pub fn fire_batch(side: Side, dummy_vk: u16, trigger_vk: u16) -> (r: Vec<KeyStroke>)
    ensures
        r@ == fire_strokes(side, dummy_vk, trigger_vk),
{
    let mut batch = suppress(dummy_vk, trigger_vk);
    let on = match side {
        Side::Right => true,
        Side::Left => false,
    };
    let mut ime = set_open_strokes(on);
    batch.append(&mut ime);
    batch
}

/// The IME keys always come last, after everything that releases the
/// trigger, and the last key is always an up.
pub proof fn law_ime_keys_follow_the_suppression(side: Side, dummy_vk: u16, trigger_vk: u16)
    ensures
        ({
            let b = fire_strokes(side, dummy_vk, trigger_vk);
            let n = b.len();
            &&& n >= 2
            &&& b[n - 2] == (KeyStroke { vk: crate::ime::ime_key(side_turns_on(side)), up: false })
            &&& b[n - 1] == (KeyStroke { vk: crate::ime::ime_key(side_turns_on(side)), up: true })
            &&& b.subrange(0, n - 2) == suppression_strokes(dummy_vk, trigger_vk)
        }),
{
    let s = suppression_strokes(dummy_vk, trigger_vk);
    let b = fire_strokes(side, dummy_vk, trigger_vk);
    assert(b.subrange(0, b.len() - 2) =~= s);
}

/// The batch a fired press injects, key by key. For every trigger but the
/// context-menu key (`VK_APPS`, 0x5D): the dummy goes down and up while the
/// trigger is still held, which breaks its solo press, then the trigger's
/// own up, then the IME key, down and up: `VK_IME_OFF` (0x1A) for the left
/// side, `VK_IME_ON` (0x16) for the right. The context-menu key's up is
/// withheld, so only the IME key goes out.
pub proof fn law_fire_batch_key_by_key(side: Side, dummy_vk: u16, trigger_vk: u16)
    ensures
        ({
            let ime: u16 = if side == Side::Right {
                0x16
            } else {
                0x1A
            };
            let b = fire_strokes(side, dummy_vk, trigger_vk);
            if trigger_vk == 0x5D {
                b == seq![KeyStroke { vk: ime, up: false }, KeyStroke { vk: ime, up: true }]
            } else {
                b == seq![
                    KeyStroke { vk: dummy_vk, up: false },
                    KeyStroke { vk: dummy_vk, up: true },
                    KeyStroke { vk: trigger_vk, up: true },
                    KeyStroke { vk: ime, up: false },
                    KeyStroke { vk: ime, up: true },
                ]
            }
        }),
        trigger_vk != 0x5D ==> suppression_strokes(dummy_vk, trigger_vk) == seq![
            KeyStroke { vk: dummy_vk, up: false },
            KeyStroke { vk: dummy_vk, up: true },
            KeyStroke { vk: trigger_vk, up: true },
        ],
        trigger_vk == 0x5D ==> suppression_strokes(dummy_vk, trigger_vk) == Seq::<KeyStroke>::empty(),
{
    let b = fire_strokes(side, dummy_vk, trigger_vk);
    if trigger_vk == 0x5D {
        assert(b =~= seq![
            KeyStroke { vk: crate::ime::ime_key(side_turns_on(side)), up: false },
            KeyStroke { vk: crate::ime::ime_key(side_turns_on(side)), up: true },
        ]);
    } else {
        assert(b =~= seq![
            KeyStroke { vk: dummy_vk, up: false },
            KeyStroke { vk: dummy_vk, up: true },
            KeyStroke { vk: trigger_vk, up: true },
            KeyStroke { vk: crate::ime::ime_key(side_turns_on(side)), up: false },
            KeyStroke { vk: crate::ime::ime_key(side_turns_on(side)), up: true },
        ]);
    }
}

/// Whenever the trigger's up is injected, the dummy's down and up come
/// before it: no trigger is ever released before its solo press is broken.
pub proof fn law_dummy_breaks_the_press_before_the_release(side: Side, dummy_vk: u16, trigger_vk: u16, i: int)
    requires
        dummy_vk != trigger_vk,
        0 <= i < fire_strokes(side, dummy_vk, trigger_vk).len(),
        fire_strokes(side, dummy_vk, trigger_vk)[i] == (KeyStroke { vk: trigger_vk, up: true }),
    ensures
        exists|j: int, k: int|
            0 <= j < k < i && #[trigger] fire_strokes(side, dummy_vk, trigger_vk)[j] == (KeyStroke {
                vk: dummy_vk,
                up: false,
            }) && #[trigger] fire_strokes(side, dummy_vk, trigger_vk)[k] == (KeyStroke {
                vk: dummy_vk,
                up: true,
            }),
{
    law_fire_batch_key_by_key(side, dummy_vk, trigger_vk);
    let b = fire_strokes(side, dummy_vk, trigger_vk);
    if trigger_vk != 0x5D {
        assert(b[0] == (KeyStroke { vk: dummy_vk, up: false }));
        assert(b[1] == (KeyStroke { vk: dummy_vk, up: true }));
        // The IME key is never the trigger's up at positions 3 and 4 unless
        // the trigger is an IME key; either way position 2 is after 0 and 1.
        assert(i >= 2);
    } else {
        assert(b[i].vk == 0x16 || b[i].vk == 0x1A);
    }
}

} // verus!
