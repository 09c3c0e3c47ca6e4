//! Turning the IME on and off.
//!
//! Switching is done by injecting `VK_IME_ON` / `VK_IME_OFF`, which are
//! idempotent rather than a toggle. Under a layout with no Japanese IME both
//! keys were measured to do nothing at all, so no layout check is needed.
use vstd::prelude::*;

use crate::inject::KeyStroke;
use crate::machine::Side;

verus! {

/// `VK_IME_ON`
pub const VK_IME_ON: u16 = 0x16;

/// `VK_IME_OFF`
pub const VK_IME_OFF: u16 = 0x1A;

/// The key that puts the IME in the state `on` asks for.
pub open spec fn ime_key(on: bool) -> u16 {
    if on {
        VK_IME_ON
    } else {
        VK_IME_OFF
    }
}

/// The strokes that turn the IME on (or off): that key down, then up.
pub open spec fn open_strokes(on: bool) -> Seq<KeyStroke> {
    seq![KeyStroke { vk: ime_key(on), up: false }, KeyStroke { vk: ime_key(on), up: true }]
}

/// What a side's solo press asks of the IME: the right side turns it on, the
/// left side turns it off.
pub open spec fn side_turns_on(side: Side) -> bool {
    side == Side::Right
}

/// The strokes to inject to turn the IME on or off. Idempotent.
pub fn set_open_strokes(on: bool) -> (r: Vec<KeyStroke>)
    ensures
        r@ == open_strokes(on),
{
    let vk = if on {
        VK_IME_ON
    } else {
        VK_IME_OFF
    };
    let r = vec![KeyStroke { vk, up: false }, KeyStroke { vk, up: true }];
    assert(r@ =~= open_strokes(on));
    r
}

/// `WM_IME_CONTROL`
pub const WM_IME_CONTROL: u32 = 0x0283;

/// `IMC_GETOPENSTATUS`
pub const IMC_GETOPENSTATUS: usize = 0x0005;

/// How long to wait for the target's answer before giving up, in
/// milliseconds: some Electron applications never answer, and a hung target
/// must not take us down with it.
pub const READ_TIMEOUT_MS: u32 = 200;

/// Which window to ask about the IME, from the foreground window and the
/// `Windows.UI.Core.CoreWindow` child found in it (0 for none).
///
/// The foreground window is the wrong thing to ask for a Store app: it is a
/// frame owned by a shell process that hosts nothing else, and it answers
/// "closed" with total confidence. The app's own input lives in the
/// `CoreWindow` child, in the app's own process.
pub fn input_host(foreground: usize, core: usize) -> (r: usize)
    ensures
        r == if core == 0 {
            foreground
        } else {
            core
        },
{
    if core == 0 {
        foreground
    } else {
        core
    }
}

/// The window to ask in the end: whatever holds the keyboard focus on the
/// host's thread (0 for none), or the host itself when nothing does.
///
/// Windows 11's Notepad answers only from the control holding the focus;
/// ordinary windows are their own focus window's answer, so this path costs
/// them nothing.
pub fn input_target(host: usize, focus: usize) -> (r: usize)
    ensures
        r == if focus == 0 {
            host
        } else {
            focus
        },
{
    if focus == 0 {
        host
    } else {
        focus
    }
}

/// What the IME read says: `None` when the target did not answer in time,
/// otherwise whether the open status it returned is non-zero.
pub fn open_status(answered: bool, result: usize) -> (r: Option<bool>)
    ensures
        r == if answered {
            Some(result != 0)
        } else {
            None
        },
{
    if answered {
        Some(result != 0)
    } else {
        None
    }
}

/// Turning the IME on injects `VK_IME_ON` (0x16) down then up; turning it
/// off, `VK_IME_OFF` (0x1A) down then up. The right side turns it on, the
/// left side off.
pub proof fn law_ime_keys_are_the_windows_ones()
    ensures
        open_strokes(true) == seq![KeyStroke { vk: 0x16, up: false }, KeyStroke { vk: 0x16, up: true }],
        open_strokes(false) == seq![KeyStroke { vk: 0x1A, up: false }, KeyStroke { vk: 0x1A, up: true }],
        side_turns_on(Side::Right),
        !side_turns_on(Side::Left),
{
}

} // verus!
