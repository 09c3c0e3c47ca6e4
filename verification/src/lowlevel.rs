//! The decisions behind the two low-level hooks.
//!
//! `WH_KEYBOARD_LL` and `WH_MOUSE_LL` are installed the same way by the app
//! and by both probes; what a callback does with one event — dropping our own
//! injections, feeding the machine, blocking the real up — is here once. The
//! hooks themselves, and the thread-local machine they feed, are Win32.
use vstd::prelude::*;

use crate::dispatch::{button_down_message, dispatch, dispatched, is_button_down};
use crate::inject::INJECT_TAG;
use crate::machine::{step, Action, Event, Machine, PressState, Side};

verus! {

/// A solo press that completed, as handed to the binary's fire callback.
#[derive(Debug, Clone, Copy, PartialEq, Eq, Structural)]
pub struct Fire {
    /// Right means "IME on" to everything that switches the IME.
    pub side: Side,
    /// The trigger that fired. `Fire` only ever follows the `KeyUp` of the
    /// held trigger, so this is the key whose up is about to be blocked.
    pub trigger_vk: u16,
    /// When the machine saw the up, in milliseconds on the shared clock.
    pub at: u64,
}

/// What the keyboard callback does with one event.
#[derive(Debug, Clone, Copy, PartialEq, Eq, Structural)]
pub struct KeyOutcome {
    /// Swallow the real event instead of passing it on.
    pub block: bool,
    /// A completed solo press, for the binary's fire callback.
    pub fire: Option<Fire>,
    /// The press was found contaminated by a modifier already held, for the
    /// probes to report.
    pub contaminated: bool,
}

/// The outcome for one keyboard event, given what feeding it produced.
pub open spec fn outcome_of(a: Action, contaminated: bool, vk: u16, at: u64) -> KeyOutcome {
    match a {
        Action::Fire(side) => KeyOutcome {
            block: true,
            fire: Some(Fire { side, trigger_vk: vk, at }),
            contaminated,
        },
        Action::Nothing => KeyOutcome { block: false, fire: None, contaminated },
    }
}

/// Handle one keyboard event.
///
/// Our own injections (tagged `INJECT_TAG`) bypass the state machine
/// entirely and pass on: without this the injected trigger up would fire the
/// machine again and loop forever. Everything else is fed to the machine; a
/// fire blocks the real up, because whatever replaces it goes out in the fire
/// callback.
pub fn on_keyboard(
    m: &mut Machine,
    extra_info: usize,
    vk: u16,
    is_up: bool,
    at: u64,
    foreign_held: bool,
) -> (r: KeyOutcome)
    ensures
        final(m).spec_config() == old(m).spec_config(),
        extra_info == INJECT_TAG ==> final(m).spec_state() == old(m).spec_state() && r == (KeyOutcome {
            block: false,
            fire: None,
            contaminated: false,
        }),
        extra_info != INJECT_TAG ==> ({
            let d = dispatched(
                old(m).spec_config(),
                old(m).spec_state(),
                vk,
                is_up,
                at,
                foreign_held,
            );
            final(m).spec_state() == d.0 && r == outcome_of(d.1, d.2, vk, at)
        }),
{
    if extra_info == INJECT_TAG {
        return KeyOutcome { block: false, fire: None, contaminated: false };
    }
    let (action, contaminated) = dispatch(m, vk, is_up, at, foreign_held);
    match action {
        Action::Fire(side) => KeyOutcome {
            block: true,
            fire: Some(Fire { side, trigger_vk: vk, at }),
            contaminated,
        },
        Action::Nothing => KeyOutcome { block: false, fire: None, contaminated },
    }
}

/// Handle one mouse event (`wparam` is the message id): a button going down
/// spoils the press in progress. Mouse events are never blocked.
pub fn on_mouse(m: &mut Machine, wparam: usize, at: u64)
    ensures
        final(m).spec_config() == old(m).spec_config(),
        final(m).spec_state() == if button_down_message(wparam as u32) {
            step(old(m).spec_config(), old(m).spec_state(), Event::MouseButton, at).0
        } else {
            old(m).spec_state()
        },
{
    if is_button_down(wparam) {
        m.on_event(Event::MouseButton, at);
    }
}

/// Throw away a half-finished press, for when the press can no longer be
/// completed: the foreground moved, or the hooks were reinstalled under it.
pub fn reset(m: &mut Machine, at: u64)
    ensures
        final(m).spec_config() == old(m).spec_config(),
        final(m).spec_state() == PressState::Idle,
{
    m.on_event(Event::Reset, at);
}

/// Only a fire blocks, and a fire always blocks: a real event is swallowed
/// exactly when its replacement goes out through the fire callback.
pub proof fn law_block_exactly_when_firing(a: Action, c: bool, vk: u16, at: u64)
    ensures
        outcome_of(a, c, vk, at).block <==> outcome_of(a, c, vk, at).fire is Some,
        outcome_of(a, c, vk, at).fire matches Some(f) ==> f.trigger_vk == vk && f.at == at,
{
}

} // verus!
