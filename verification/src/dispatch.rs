//! Feeding raw key and mouse events to the machine.
//!
//! The app and both probes install the same two low-level hooks and feed the
//! same state machine; what is here is everything those callbacks do
//! identically, so that the invariants inside them exist once.
use vstd::prelude::*;

use crate::machine::{side_for, step, tainted, Action, Config, Event, Machine, PressState};

verus! {

/// Whether the hook has to ask if another modifier is held before feeding
/// this key: only for a trigger going down.
pub open spec fn wants_modifier_check(cfg: Config, vk: u16, is_up: bool) -> bool {
    !is_up && side_for(cfg, vk) is Some
}

/// Feeding one raw key event: the state after it, the action, and whether
/// another modifier was found already held.
///
/// A release is fed as `KeyUp`. A press is fed as `KeyDown`, and when it is a
/// trigger's and another modifier is held, `ForeignKeyHeld` follows it: the
/// machine needs the press before it can be told the press is contaminated.
pub open spec fn dispatched(
    cfg: Config,
    st: PressState,
    vk: u16,
    is_up: bool,
    t: u64,
    foreign_held: bool,
) -> (PressState, Action, bool) {
    if is_up {
        let r = step(cfg, st, Event::KeyUp(vk), t);
        (r.0, r.1, false)
    } else {
        let r = step(cfg, st, Event::KeyDown(vk), t);
        if side_for(cfg, vk) is Some && foreign_held {
            (step(cfg, r.0, Event::ForeignKeyHeld, t).0, r.1, true)
        } else {
            (r.0, r.1, false)
        }
    }
}

/// Whether `dispatch` will read `foreign_held` for this event. The caller
/// asks `GetAsyncKeyState` only then, because the answer only matters then.
pub fn needs_modifier_check(m: &Machine, vk: u16, is_up: bool) -> (r: bool)
    ensures
        r == wants_modifier_check(m.spec_config(), vk, is_up),
{
    let cfg = m.config();
    !is_up && (vk == cfg.left_trigger || vk == cfg.right_trigger)
}

/// Feed one raw key event to the machine.
///
/// `foreign_held` is whether another modifier was found already held, which
/// only matters for a trigger going down (see `needs_modifier_check`).
/// Returns the action, and whether that was the case: `altprobe` reports the
/// second so that a non-fire can be told from a bug.
///
/// Filtering out our own injections is not done here; this takes a bare
/// virtual key and a direction.
pub fn dispatch(m: &mut Machine, vk: u16, is_up: bool, t: u64, foreign_held: bool) -> (r: (Action, bool))
    ensures
        final(m).spec_config() == old(m).spec_config(),
        (final(m).spec_state(), r.0, r.1) == dispatched(
            old(m).spec_config(),
            old(m).spec_state(),
            vk,
            is_up,
            t,
            foreign_held,
        ),
{
    if is_up {
        return (m.on_event(Event::KeyUp(vk), t), false);
    }
    let action = m.on_event(Event::KeyDown(vk), t);
    let cfg = *m.config();
    if (vk == cfg.left_trigger || vk == cfg.right_trigger) && foreign_held {
        m.on_event(Event::ForeignKeyHeld, t);
        return (action, true);
    }
    (action, false)
}

/// `WM_LBUTTONDOWN`
pub const WM_LBUTTONDOWN: u32 = 0x0201;

/// `WM_RBUTTONDOWN`
pub const WM_RBUTTONDOWN: u32 = 0x0204;

/// `WM_MBUTTONDOWN`
pub const WM_MBUTTONDOWN: u32 = 0x0207;

/// `WM_XBUTTONDOWN`
pub const WM_XBUTTONDOWN: u32 = 0x020B;

/// Whether a mouse message id is a button going down.
pub open spec fn button_down_message(msg: u32) -> bool {
    msg == WM_LBUTTONDOWN || msg == WM_RBUTTONDOWN || msg == WM_MBUTTONDOWN || msg == WM_XBUTTONDOWN
}

/// Is this mouse message (the hook's `wParam`) a button going down?
///
/// Alt+drag and Alt+click are not solo presses, so any of the four ends one.
pub fn is_button_down(wparam: usize) -> (r: bool)
    ensures
        r == button_down_message(wparam as u32),
{
    let msg = wparam as u32;
    msg == WM_LBUTTONDOWN || msg == WM_RBUTTONDOWN || msg == WM_MBUTTONDOWN || msg == WM_XBUTTONDOWN
}

/// A trigger pressed while another modifier was already held never fires,
/// however quickly it is released: the press is contaminated from its start.
pub proof fn law_press_with_a_modifier_held_never_fires(
    cfg: Config,
    vk: u16,
    down_ms: u64,
    up_ms: u64,
)
    requires
        side_for(cfg, vk) is Some,
    ensures
        ({
            let d = dispatched(cfg, PressState::Idle, vk, false, down_ms, true);
            &&& d.2
            &&& d.0 == (PressState::Held { vk, since_ms: down_ms, contaminated: true })
            &&& dispatched(cfg, d.0, vk, true, up_ms, false).1 == Action::Nothing
        }),
{
}

/// A release never triggers the modifier check and is fed as a plain
/// `KeyUp`; a key that is not a trigger is fed as a plain `KeyDown`.
pub proof fn law_only_a_trigger_press_is_checked(
    cfg: Config,
    st: PressState,
    vk: u16,
    is_up: bool,
    t: u64,
    foreign_held: bool,
)
    requires
        !wants_modifier_check(cfg, vk, is_up),
    ensures
        dispatched(cfg, st, vk, is_up, t, foreign_held) == dispatched(cfg, st, vk, is_up, t, false),
        !dispatched(cfg, st, vk, is_up, t, foreign_held).2,
{
}

/// The contamination a held modifier adds is the same as a mouse button's:
/// it marks the press as not solo, and leaves an idle machine idle.
pub proof fn law_foreign_key_only_taints(cfg: Config, st: PressState, t: u64)
    ensures
        step(cfg, st, Event::ForeignKeyHeld, t).0 == tainted(st),
{
}

/// Every key that goes down reaches the machine. While a trigger is held,
/// any other key going down marks the press as not solo; only the held
/// trigger's own auto-repeat leaves it as it was (unless another modifier
/// is found held). While idle, a trigger going down starts a press, and any
/// other key is ignored. A key going down never asks for anything, and the
/// flag says whether the held-modifier answer was used.
pub proof fn law_every_key_down_reaches_the_machine(
    cfg: Config,
    st: PressState,
    vk: u16,
    t: u64,
    foreign_held: bool,
)
    ensures
        ({
            let trigger = vk == cfg.left_trigger || vk == cfg.right_trigger;
            dispatched(cfg, st, vk, false, t, foreign_held) == match st {
                PressState::Idle => if trigger {
                    (
                        PressState::Held { vk, since_ms: t, contaminated: foreign_held },
                        Action::Nothing,
                        foreign_held,
                    )
                } else {
                    (PressState::Idle, Action::Nothing, false)
                },
                PressState::Held { vk: held, since_ms, contaminated } => if vk == held && trigger {
                    (
                        PressState::Held { vk: held, since_ms, contaminated: contaminated || foreign_held },
                        Action::Nothing,
                        foreign_held,
                    )
                } else {
                    (
                        PressState::Held { vk: held, since_ms, contaminated: true },
                        Action::Nothing,
                        foreign_held && trigger,
                    )
                },
            }
        }),
{
}

/// A chord never fires: a trigger goes down, any other key goes down, and
/// the trigger is released (however quickly, and whether or not another
/// modifier was held). Alt+F4 with Alt released first stays ordinary Alt.
pub proof fn law_a_chord_never_fires(
    cfg: Config,
    trigger: u16,
    other: u16,
    t0: u64,
    t1: u64,
    t2: u64,
    f0: bool,
    f1: bool,
)
    requires
        trigger == cfg.left_trigger || trigger == cfg.right_trigger,
        other != trigger,
    ensures
        ({
            let s1 = dispatched(cfg, PressState::Idle, trigger, false, t0, f0).0;
            let s2 = dispatched(cfg, s1, other, false, t1, f1).0;
            let r = dispatched(cfg, s2, trigger, true, t2, false);
            &&& r.1 == Action::Nothing
            &&& r.0 == PressState::Idle
        }),
{
    law_every_key_down_reaches_the_machine(cfg, PressState::Idle, trigger, t0, f0);
    let s1 = dispatched(cfg, PressState::Idle, trigger, false, t0, f0).0;
    law_every_key_down_reaches_the_machine(cfg, s1, other, t1, f1);
}

/// A mouse message ends a solo press exactly when it is a button going
/// down: `WM_LBUTTONDOWN` (0x201), `WM_RBUTTONDOWN` (0x204),
/// `WM_MBUTTONDOWN` (0x207) or `WM_XBUTTONDOWN` (0x20B). Moves, releases and
/// the wheel leave it alone.
pub proof fn law_only_a_button_going_down_spoils(msg: u32)
    ensures
        button_down_message(msg) <==> (msg == 0x201 || msg == 0x204 || msg == 0x207 || msg == 0x20B),
{
}

} // verus!
