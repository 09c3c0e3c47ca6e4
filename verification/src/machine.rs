//! State machine that detects a "solo press" of a modifier key.
//!
//! OS independent. It holds no Win32 types and no clock; events and timestamps
//! are supplied by the caller.
//!
//! Responsibilities of the caller (the Win32 adapter):
//! - Events we injected ourselves must not reach here (filter them out by the
//!   `dwExtraInfo` tag)
//! - If another key was already down when the trigger was pressed, emit
//!   `ForeignKeyHeld` right after that `KeyDown`
//! - Emit `Reset` on foreground changes and session changes
use vstd::prelude::*;

verus! {

/// Which side the trigger key is on.
#[derive(Debug, Clone, Copy, PartialEq, Eq, Structural)]
pub enum Side {
    Left,
    Right,
}

/// An input event from the observation layer.
#[derive(Debug, Clone, Copy, PartialEq, Eq, Structural)]
pub enum Event {
    /// Key pressed. Auto-repeat also arrives as `KeyDown` for the same vk.
    KeyDown(u16),
    /// Key released.
    KeyUp(u16),
    /// A mouse button went down (which button does not matter).
    MouseButton,
    /// Another key was already held when the trigger was pressed.
    ///
    /// The adapter must emit this right after the trigger's `KeyDown`
    /// (emitting it earlier is harmless but useless: the machine is still
    /// `Idle` and drops it).
    ForeignKeyHeld,
    /// Discard the current state. Foreground change, session change, hook
    /// reinstallation, and so on.
    Reset,
}

/// What the state machine wants the caller to do.
#[derive(Debug, Clone, Copy, PartialEq, Eq, Structural)]
pub enum Action {
    /// Nothing to do. The event may be passed on to the OS unchanged.
    Nothing,
    /// A solo press completed. The caller suppresses the side effect and
    /// performs the IME switch.
    Fire(Side),
}

#[derive(Debug, Clone, Copy, PartialEq, Eq, Structural)]
pub struct Config {
    pub left_trigger: u16,
    pub right_trigger: u16,
    /// A press shorter than this counts as a solo press.
    ///
    /// Measured on real hardware: even deliberate solo presses reached 215ms,
    /// while auto-repeat starts at roughly 500ms. 400ms sits between the two.
    pub threshold_ms: u64,
}

/// `VK_LMENU`
pub const VK_LMENU: u16 = 0xA4;

/// `VK_RMENU`
pub const VK_RMENU: u16 = 0xA5;

/// The trigger value of a slot that holds no key.
///
/// Virtual-key code 0 is not a key, so no keyboard event carries it and a
/// slot set to it never matches anything.
pub const VK_NONE: u16 = 0;

/// The configuration a fresh install uses: left Alt off, right Alt on, 400ms.
pub open spec fn default_config() -> Config {
    Config { left_trigger: VK_LMENU, right_trigger: VK_RMENU, threshold_ms: 400 }
}

impl Default for Config {
    fn default() -> (c: Self)
        ensures
            c == default_config(),
    {
        Config { left_trigger: VK_LMENU, right_trigger: VK_RMENU, threshold_ms: 400 }
    }
}

/// Where a press stands.
#[derive(Debug, Clone, Copy, PartialEq, Eq, Structural)]
pub enum PressState {
    Idle,
    Held {
        vk: u16,
        since_ms: u64,
        /// No longer a solo press. The matching up event will not fire.
        contaminated: bool,
    },
}

/// Which side `vk` triggers under `cfg`. The left trigger is tested first.
pub open spec fn side_for(cfg: Config, vk: u16) -> Option<Side> {
    if vk == cfg.left_trigger {
        Some(Side::Left)
    } else if vk == cfg.right_trigger {
        Some(Side::Right)
    } else {
        None
    }
}

/// `now - since`, or zero when the clock appears to have gone backwards.
pub open spec fn elapsed(now: u64, since: u64) -> int {
    if now >= since {
        now - since
    } else {
        0
    }
}

/// The same press, marked as no longer solo. Idle stays idle.
pub open spec fn tainted(st: PressState) -> PressState {
    match st {
        PressState::Idle => PressState::Idle,
        PressState::Held { vk, since_ms, .. } => PressState::Held { vk, since_ms, contaminated: true },
    }
}

/// One transition of the machine: the state after `ev` at `now`, and the
/// action it asks for.
pub open spec fn step(cfg: Config, st: PressState, ev: Event, now: u64) -> (PressState, Action) {
    match ev {
        Event::KeyDown(vk) => match st {
            PressState::Idle => {
                if side_for(cfg, vk) is Some {
                    (PressState::Held { vk, since_ms: now, contaminated: false }, Action::Nothing)
                } else {
                    (PressState::Idle, Action::Nothing)
                }
            },
            PressState::Held { vk: held, .. } => {
                if vk == held && side_for(cfg, vk) is Some {
                    // Auto-repeat of the held trigger.
                    (st, Action::Nothing)
                } else {
                    (tainted(st), Action::Nothing)
                }
            },
        },
        Event::KeyUp(vk) => match st {
            PressState::Idle => (PressState::Idle, Action::Nothing),
            PressState::Held { vk: held, since_ms, contaminated } => {
                if vk != held {
                    (tainted(st), Action::Nothing)
                } else {
                    let fires = !contaminated && elapsed(now, since_ms) < cfg.threshold_ms;
                    match side_for(cfg, vk) {
                        Some(s) if fires => (PressState::Idle, Action::Fire(s)),
                        _ => (PressState::Idle, Action::Nothing),
                    }
                }
            },
        },
        Event::MouseButton => (tainted(st), Action::Nothing),
        Event::ForeignKeyHeld => (tainted(st), Action::Nothing),
        Event::Reset => (PressState::Idle, Action::Nothing),
    }
}

/// A held key is always a trigger of the configuration in force.
pub open spec fn state_fits(cfg: Config, st: PressState) -> bool {
    match st {
        PressState::Idle => true,
        PressState::Held { vk, .. } => side_for(cfg, vk) is Some,
    }
}

#[derive(Debug)]
pub struct Machine {
    cfg: Config,
    state: PressState,
}

impl Machine {
    #[verifier::type_invariant]
    spec fn inv(self) -> bool {
        state_fits(self.cfg, self.state)
    }

    /// The configuration in force.
    pub closed spec fn spec_config(self) -> Config {
        self.cfg
    }

    /// Where the current press stands.
    pub closed spec fn spec_state(self) -> PressState {
        self.state
    }

    pub fn new(cfg: Config) -> (m: Self)
        ensures
            m.spec_config() == cfg,
            m.spec_state() == PressState::Idle,
    {
        Machine { cfg, state: PressState::Idle }
    }

    pub fn config(&self) -> (c: &Config)
        ensures
            *c == self.spec_config(),
    {
        &self.cfg
    }

    /// Replace the configuration, discarding any held state.
    ///
    /// Call this from the hook thread's message loop, never from the hook
    /// callback. The held state is dropped so that a `Held` entry cannot be
    /// left dangling when the threshold or the trigger keys change underneath
    /// it: the next press is the one that counts.
    pub fn set_config(&mut self, cfg: Config)
        ensures
            final(self).spec_config() == cfg,
            final(self).spec_state() == PressState::Idle,
    {
        *self = Machine { cfg, state: PressState::Idle };
    }

    fn side_of(&self, vk: u16) -> (r: Option<Side>)
        ensures
            r == side_for(self.spec_config(), vk),
    {
        if vk == self.cfg.left_trigger {
            Some(Side::Left)
        } else if vk == self.cfg.right_trigger {
            Some(Side::Right)
        } else {
            None
        }
    }

    fn contaminate(&mut self)
        ensures
            final(self).spec_config() == old(self).spec_config(),
            final(self).spec_state() == tainted(old(self).spec_state()),
    {
        proof {
            use_type_invariant(&*self);
        }
        match self.state {
            PressState::Idle => {},
            PressState::Held { vk, since_ms, .. } => {
                self.state = PressState::Held { vk, since_ms, contaminated: true };
            },
        }
    }

    /// Feed one event observed at `now_ms`.
    pub fn on_event(&mut self, ev: Event, now_ms: u64) -> (a: Action)
        ensures
            state_fits(old(self).spec_config(), old(self).spec_state()),
            state_fits(final(self).spec_config(), final(self).spec_state()),
            final(self).spec_config() == old(self).spec_config(),
            (final(self).spec_state(), a) == step(
                old(self).spec_config(),
                old(self).spec_state(),
                ev,
                now_ms,
            ),
    {
        proof {
            use_type_invariant(&*self);
        }
        match ev {
            Event::KeyDown(vk) => self.on_key_down(vk, now_ms),
            Event::KeyUp(vk) => self.on_key_up(vk, now_ms),
            Event::MouseButton => {
                // Alt+drag, Alt+click. Not a solo press.
                self.contaminate();
                Action::Nothing
            },
            Event::ForeignKeyHeld => {
                self.contaminate();
                Action::Nothing
            },
            Event::Reset => {
                self.state = PressState::Idle;
                Action::Nothing
            },
        }
    }

    fn on_key_down(&mut self, vk: u16, now_ms: u64) -> (a: Action)
        ensures
            final(self).spec_config() == old(self).spec_config(),
            (final(self).spec_state(), a) == step(
                old(self).spec_config(),
                old(self).spec_state(),
                Event::KeyDown(vk),
                now_ms,
            ),
    {
        let is_trigger = self.side_of(vk).is_some();
        match self.state {
            PressState::Idle => {
                if is_trigger {
                    self.state = PressState::Held { vk, since_ms: now_ms, contaminated: false };
                }
            },
            PressState::Held { vk: held, .. } => {
                if is_trigger && vk == held {
                    // Auto-repeat. Does not count as pressing another key; a
                    // genuine long press is rejected by the time threshold.
                } else {
                    // Another key, or the opposite trigger pressed at the same time.
                    self.contaminate();
                }
            },
        }
        Action::Nothing
    }

    fn on_key_up(&mut self, vk: u16, now_ms: u64) -> (a: Action)
        ensures
            final(self).spec_config() == old(self).spec_config(),
            (final(self).spec_state(), a) == step(
                old(self).spec_config(),
                old(self).spec_state(),
                Event::KeyUp(vk),
                now_ms,
            ),
    {
        let side = self.side_of(vk);
        match self.state {
            PressState::Idle => Action::Nothing,
            PressState::Held { vk: held, since_ms, contaminated } => {
                if vk != held {
                    // Release of some other key. A key that was already down
                    // before the trigger was pressed also surfaces here, so
                    // treat this as evidence that the press was not solo.
                    self.contaminate();
                    return Action::Nothing;
                }
                self.state = PressState::Idle;
                let elapsed = now_ms.saturating_sub(since_ms);
                match side {
                    Some(s) => {
                        if !contaminated && elapsed < self.cfg.threshold_ms {
                            Action::Fire(s)
                        } else {
                            Action::Nothing
                        }
                    },
                    None => Action::Nothing,
                }
            },
        }
    }
}


// ---------------------------------------------------------------------------
// Runs of events, and what the machine promises about them
// ---------------------------------------------------------------------------

/// Feed `evs` (each an event and its timestamp) in order from `st`: the state
/// at the end, and the action answered to each event.
pub open spec fn run(cfg: Config, st: PressState, evs: Seq<(Event, u64)>) -> (PressState, Seq<Action>)
    decreases evs.len(),
{
    if evs.len() == 0 {
        (st, Seq::empty())
    } else {
        let next = step(cfg, st, evs[0].0, evs[0].1);
        let rest = run(cfg, next.0, evs.drop_first());
        (rest.0, seq![next.1] + rest.1)
    }
}

/// A press of `vk` at `down_ms`, auto-repeated at each of `repeats`, and
/// released at `up_ms`, with nothing else in between.
pub open spec fn solo_press(vk: u16, down_ms: u64, repeats: Seq<u64>, up_ms: u64) -> Seq<(Event, u64)> {
    seq![(Event::KeyDown(vk), down_ms)] + repeats.map_values(|t: u64| (Event::KeyDown(vk), t))
        + seq![(Event::KeyUp(vk), up_ms)]
}

/// An event that says the press of `vk` is not solo: a mouse button, a key
/// found already held, or any other key going down or up.
pub open spec fn spoils(ev: Event, vk: u16) -> bool {
    match ev {
        Event::KeyDown(k) => k != vk,
        Event::KeyUp(k) => k != vk,
        Event::MouseButton => true,
        Event::ForeignKeyHeld => true,
        Event::Reset => false,
    }
}

/// An event that neither releases `vk` nor discards the press.
pub open spec fn keeps_press(ev: Event, vk: u16) -> bool {
    ev != Event::KeyUp(vk) && ev != Event::Reset
}

/// Every action in `acts` is `Nothing`.
pub open spec fn all_quiet(acts: Seq<Action>) -> bool {
    forall|i: int| 0 <= i < acts.len() ==> acts[i] == Action::Nothing
}

/// Running two sequences one after the other is running their concatenation.
pub proof fn lemma_run_concat(cfg: Config, st: PressState, a: Seq<(Event, u64)>, b: Seq<(Event, u64)>)
    ensures
        run(cfg, st, a + b) == (run(cfg, run(cfg, st, a).0, b).0, run(cfg, st, a).1 + run(
            cfg,
            run(cfg, st, a).0,
            b,
        ).1),
    decreases a.len(),
{
    if a.len() == 0 {
        assert(a + b =~= b);
        assert(Seq::<Action>::empty() + run(cfg, st, b).1 =~= run(cfg, st, b).1);
    } else {
        let next = step(cfg, st, a[0].0, a[0].1);
        assert((a + b).drop_first() =~= a.drop_first() + b);
        lemma_run_concat(cfg, next.0, a.drop_first(), b);
        let ra = run(cfg, next.0, a.drop_first());
        let rb = run(cfg, ra.0, b);
        assert(seq![next.1] + (ra.1 + rb.1) =~= (seq![next.1] + ra.1) + rb.1);
    }
}

/// Running a single event is one step.
proof fn lemma_run_one(cfg: Config, st: PressState, e: (Event, u64))
    ensures
        run(cfg, st, seq![e]) == (step(cfg, st, e.0, e.1).0, seq![step(cfg, st, e.0, e.1).1]),
{
    let next = step(cfg, st, e.0, e.1);
    assert(seq![e].drop_first() =~= Seq::<(Event, u64)>::empty());
    assert(run(cfg, next.0, Seq::<(Event, u64)>::empty()) == (next.0, Seq::<Action>::empty()));
    assert(seq![next.1] + Seq::<Action>::empty() =~= seq![next.1]);
}

/// Auto-repeat of the held trigger changes nothing and asks for nothing.
proof fn lemma_repeats_keep_press(cfg: Config, vk: u16, since: u64, c: bool, repeats: Seq<u64>)
    requires
        side_for(cfg, vk) is Some,
    ensures
        run(cfg, PressState::Held { vk, since_ms: since, contaminated: c }, repeats.map_values(
            |t: u64| (Event::KeyDown(vk), t),
        )).0 == (PressState::Held { vk, since_ms: since, contaminated: c }),
        all_quiet(
            run(cfg, PressState::Held { vk, since_ms: since, contaminated: c }, repeats.map_values(
                |t: u64| (Event::KeyDown(vk), t),
            )).1,
        ),
        run(cfg, PressState::Held { vk, since_ms: since, contaminated: c }, repeats.map_values(
            |t: u64| (Event::KeyDown(vk), t),
        )).1.len() == repeats.len(),
    decreases repeats.len(),
{
    let st = PressState::Held { vk, since_ms: since, contaminated: c };
    let evs = repeats.map_values(|t: u64| (Event::KeyDown(vk), t));
    if repeats.len() > 0 {
        assert(evs.drop_first() =~= repeats.drop_first().map_values(
            |t: u64| (Event::KeyDown(vk), t),
        ));
        lemma_repeats_keep_press(cfg, vk, since, c, repeats.drop_first());
        let rest = run(cfg, st, evs.drop_first());
        assert forall|i: int| 0 <= i < (seq![Action::Nothing] + rest.1).len() implies (seq![
            Action::Nothing,
        ] + rest.1)[i] == Action::Nothing by {
            if i > 0 {
                assert((seq![Action::Nothing] + rest.1)[i] == rest.1[i - 1]);
            }
        }
    }
}

/// A solo press fires: a trigger pressed, auto-repeated any number of times,
/// and released sooner than the threshold after it went down, with nothing
/// else in between, fires its side on the release and on nothing before it,
/// and leaves the machine idle for the next press.
pub proof fn law_solo_press_fires(cfg: Config, vk: u16, down_ms: u64, repeats: Seq<u64>, up_ms: u64)
    requires
        side_for(cfg, vk) is Some,
        elapsed(up_ms, down_ms) < cfg.threshold_ms,
    ensures
        run(cfg, PressState::Idle, solo_press(vk, down_ms, repeats, up_ms)).0 == PressState::Idle,
        run(cfg, PressState::Idle, solo_press(vk, down_ms, repeats, up_ms)).1 == Seq::new(
            repeats.len() + 1,
            |i: int| Action::Nothing,
        ).push(Action::Fire(side_for(cfg, vk)->0)),
{
    lemma_solo_press_shape(cfg, vk, down_ms, repeats, up_ms);
}

/// A press held for the threshold or longer falls through: it asks for
/// nothing at any point, so the key keeps its ordinary behaviour.
pub proof fn law_long_press_falls_through(
    cfg: Config,
    vk: u16,
    down_ms: u64,
    repeats: Seq<u64>,
    up_ms: u64,
)
    requires
        side_for(cfg, vk) is Some,
        elapsed(up_ms, down_ms) >= cfg.threshold_ms,
    ensures
        run(cfg, PressState::Idle, solo_press(vk, down_ms, repeats, up_ms)).0 == PressState::Idle,
        all_quiet(run(cfg, PressState::Idle, solo_press(vk, down_ms, repeats, up_ms)).1),
{
    lemma_solo_press_shape(cfg, vk, down_ms, repeats, up_ms);
}

proof fn lemma_solo_press_shape(cfg: Config, vk: u16, down_ms: u64, repeats: Seq<u64>, up_ms: u64)
    requires
        side_for(cfg, vk) is Some,
    ensures
        ({
            let r = run(cfg, PressState::Idle, solo_press(vk, down_ms, repeats, up_ms));
            let last = if elapsed(up_ms, down_ms) < cfg.threshold_ms {
                Action::Fire(side_for(cfg, vk)->0)
            } else {
                Action::Nothing
            };
            &&& r.0 == PressState::Idle
            &&& r.1 == Seq::new(repeats.len() + 1, |i: int| Action::Nothing).push(last)
        }),
{
    let held = PressState::Held { vk, since_ms: down_ms, contaminated: false };
    let first = seq![(Event::KeyDown(vk), down_ms)];
    let mid = repeats.map_values(|t: u64| (Event::KeyDown(vk), t));
    let last_ev = seq![(Event::KeyUp(vk), up_ms)];
    assert(solo_press(vk, down_ms, repeats, up_ms) == first + mid + last_ev);
    lemma_run_concat(cfg, PressState::Idle, first + mid, last_ev);
    lemma_run_concat(cfg, PressState::Idle, first, mid);
    lemma_run_one(cfg, PressState::Idle, (Event::KeyDown(vk), down_ms));
    lemma_repeats_keep_press(cfg, vk, down_ms, false, repeats);
    let rm = run(cfg, held, mid);
    lemma_run_one(cfg, held, (Event::KeyUp(vk), up_ms));
    let last = if elapsed(up_ms, down_ms) < cfg.threshold_ms {
        Action::Fire(side_for(cfg, vk)->0)
    } else {
        Action::Nothing
    };
    assert(run(cfg, held, last_ev) == (PressState::Idle, seq![last]));
    assert(seq![Action::Nothing] + rm.1 + seq![last] =~= Seq::new(
        repeats.len() + 1,
        |i: int| Action::Nothing,
    ).push(last)) by {
        assert forall|i: int| 0 <= i < repeats.len() implies rm.1[i] == Action::Nothing by {}
    }
}

/// Between the press and the release of a held key, events that neither
/// release it nor reset the machine ask for nothing and keep the press held;
/// the press ends up contaminated exactly when one of them spoiled it.
proof fn lemma_middle(cfg: Config, vk: u16, since: u64, c: bool, mid: Seq<(Event, u64)>)
    requires
        side_for(cfg, vk) is Some,
        forall|i: int| 0 <= i < mid.len() ==> keeps_press(#[trigger] mid[i].0, vk),
    ensures
        run(cfg, PressState::Held { vk, since_ms: since, contaminated: c }, mid).0 == (PressState::Held {
            vk,
            since_ms: since,
            contaminated: c || exists|i: int| 0 <= i < mid.len() && spoils(#[trigger] mid[i].0, vk),
        }),
        all_quiet(run(cfg, PressState::Held { vk, since_ms: since, contaminated: c }, mid).1),
    decreases mid.len(),
{
    let st = PressState::Held { vk, since_ms: since, contaminated: c };
    if mid.len() > 0 {
        let e = mid[0].0;
        assert(keeps_press(mid[0].0, vk));
        let next = step(cfg, st, e, mid[0].1);
        let c2 = c || spoils(e, vk);
        assert(next == (PressState::Held { vk, since_ms: since, contaminated: c2 }, Action::Nothing));
        let tail = mid.drop_first();
        assert forall|i: int| 0 <= i < tail.len() implies keeps_press(#[trigger] tail[i].0, vk) by {
            assert(tail[i] == mid[i + 1]);
        }
        lemma_middle(cfg, vk, since, c2, tail);
        let ex_mid = exists|i: int| 0 <= i < mid.len() && spoils(#[trigger] mid[i].0, vk);
        let ex_tail = exists|i: int| 0 <= i < tail.len() && spoils(#[trigger] tail[i].0, vk);
        assert((c2 || ex_tail) == (c || ex_mid)) by {
            if ex_tail {
                let i = choose|i: int| 0 <= i < tail.len() && spoils(#[trigger] tail[i].0, vk);
                assert(mid[i + 1] == tail[i]);
            }
            if ex_mid {
                let i = choose|i: int| 0 <= i < mid.len() && spoils(#[trigger] mid[i].0, vk);
                if i > 0 {
                    assert(tail[i - 1] == mid[i]);
                }
            }
        }
        let rest = run(cfg, next.0, tail);
        assert forall|i: int| 0 <= i < (seq![Action::Nothing] + rest.1).len() implies (seq![
            Action::Nothing,
        ] + rest.1)[i] == Action::Nothing by {
            if i > 0 {
                assert((seq![Action::Nothing] + rest.1)[i] == rest.1[i - 1]);
            }
        }
    }
}

/// A press that something else happened during never fires: if, between a
/// trigger's down and its release, any other key went down or up, a mouse
/// button went down, or a key was found already held, the whole press asks
/// for nothing, however short it was, and leaves the machine idle.
pub proof fn law_spoiled_press_never_fires(
    cfg: Config,
    vk: u16,
    down_ms: u64,
    mid: Seq<(Event, u64)>,
    up_ms: u64,
)
    requires
        side_for(cfg, vk) is Some,
        forall|i: int| 0 <= i < mid.len() ==> keeps_press(#[trigger] mid[i].0, vk),
        exists|i: int| 0 <= i < mid.len() && spoils(#[trigger] mid[i].0, vk),
    ensures
        ({
            let evs = seq![(Event::KeyDown(vk), down_ms)] + mid + seq![(Event::KeyUp(vk), up_ms)];
            &&& run(cfg, PressState::Idle, evs).0 == PressState::Idle
            &&& all_quiet(run(cfg, PressState::Idle, evs).1)
        }),
{
    let first = seq![(Event::KeyDown(vk), down_ms)];
    let last_ev = seq![(Event::KeyUp(vk), up_ms)];
    let held = PressState::Held { vk, since_ms: down_ms, contaminated: false };
    lemma_run_concat(cfg, PressState::Idle, first + mid, last_ev);
    lemma_run_concat(cfg, PressState::Idle, first, mid);
    lemma_run_one(cfg, PressState::Idle, (Event::KeyDown(vk), down_ms));
    lemma_middle(cfg, vk, down_ms, false, mid);
    let spoiled = PressState::Held { vk, since_ms: down_ms, contaminated: true };
    lemma_run_one(cfg, spoiled, (Event::KeyUp(vk), up_ms));
    let rm = run(cfg, held, mid);
    let all = seq![Action::Nothing] + rm.1 + seq![Action::Nothing];
    assert forall|i: int| 0 <= i < all.len() implies all[i] == Action::Nothing by {
        if 0 < i < all.len() - 1 {
            assert(all[i] == rm.1[i - 1]);
        }
    }
}

/// The machine fires exactly when a trigger is released from a press that
/// nothing spoiled, sooner than the threshold after it went down, and then
/// fires that trigger's side.
pub proof fn law_fires_only_on_a_clean_quick_release(
    cfg: Config,
    st: PressState,
    ev: Event,
    now: u64,
    s: Side,
)
    ensures
        step(cfg, st, ev, now).1 == Action::Fire(s) <==> exists|vk: u16, since: u64|
            ev == Event::KeyUp(vk) && st == (PressState::Held {
                vk,
                since_ms: since,
                contaminated: false,
            }) && elapsed(now, since) < cfg.threshold_ms && side_for(cfg, vk) == Some(s),
{
    if step(cfg, st, ev, now).1 == Action::Fire(s) {
        let vk = ev->KeyUp_0;
        let since = st->since_ms;
        assert(ev == Event::KeyUp(vk) && st == (PressState::Held {
            vk,
            since_ms: since,
            contaminated: false,
        }));
    }
}

/// Whatever happened before, a reset leaves the machine idle and asks for
/// nothing, so the release that follows a foreground change cannot fire.
pub proof fn law_reset_discards_the_press(cfg: Config, st: PressState, now: u64)
    ensures
        step(cfg, st, Event::Reset, now) == (PressState::Idle, Action::Nothing),
{
}

/// A release with no press behind it is ignored.
pub proof fn law_release_while_idle_is_ignored(cfg: Config, vk: u16, now: u64)
    ensures
        step(cfg, PressState::Idle, Event::KeyUp(vk), now) == (PressState::Idle, Action::Nothing),
{
}

/// Nothing but a release ever fires.
pub proof fn law_only_a_release_fires(cfg: Config, st: PressState, ev: Event, now: u64)
    requires
        !(ev is KeyUp),
    ensures
        step(cfg, st, ev, now).1 == Action::Nothing,
{
}

/// A threshold of zero never fires: no press is shorter than it.
pub proof fn law_zero_threshold_never_fires(cfg: Config, st: PressState, ev: Event, now: u64)
    requires
        cfg.threshold_ms == 0,
    ensures
        step(cfg, st, ev, now).1 == Action::Nothing,
{
}

/// With the same key in both slots the left slot wins, so nothing can ever
/// fire the right side.
pub proof fn law_same_trigger_never_fires_right(cfg: Config, st: PressState, ev: Event, now: u64)
    requires
        cfg.left_trigger == cfg.right_trigger,
    ensures
        step(cfg, st, ev, now).1 != Action::Fire(Side::Right),
{
}

/// A slot holding `VK_NONE` never fires, as long as no event carries that
/// virtual-key code (and a real keyboard never sends 0).
pub proof fn law_empty_slot_never_fires(cfg: Config, st: PressState, ev: Event, now: u64, s: Side)
    requires
        state_fits(cfg, st),
        ev != Event::KeyUp(VK_NONE),
        s == Side::Left ==> cfg.left_trigger == VK_NONE,
        s == Side::Right ==> cfg.right_trigger == VK_NONE,
    ensures
        step(cfg, st, ev, now).1 != Action::Fire(s),
{
}

/// Every transition keeps a held key a trigger of the configuration.
pub proof fn law_held_key_is_a_trigger(cfg: Config, st: PressState, ev: Event, now: u64)
    requires
        state_fits(cfg, st),
    ensures
        state_fits(cfg, step(cfg, st, ev, now).0),
{
}

/// What a trigger's release does, in terms of the clock alone: it always
/// ends the press, and it fires exactly when the press was clean and the
/// time between its down and its release is below the threshold (a clock
/// that went backwards counts as no time at all). The left slot wins a tie.
/// So a hold of the threshold or longer, however long, never fires: the key
/// falls through to Windows with its ordinary behaviour.
pub proof fn law_release_fires_by_hold_length(cfg: Config, vk: u16, down_ms: u64, c: bool, up_ms: u64)
    requires
        vk == cfg.left_trigger || vk == cfg.right_trigger,
    ensures
        ({
            let r = step(
                cfg,
                PressState::Held { vk, since_ms: down_ms, contaminated: c },
                Event::KeyUp(vk),
                up_ms,
            );
            let held_for: int = if up_ms >= down_ms {
                up_ms - down_ms
            } else {
                0
            };
            let side = if vk == cfg.left_trigger {
                Side::Left
            } else {
                Side::Right
            };
            &&& r.0 == PressState::Idle
            &&& r.1 == if !c && held_for < cfg.threshold_ms {
                Action::Fire(side)
            } else {
                Action::Nothing
            }
        }),
        up_ms >= down_ms && up_ms - down_ms >= cfg.threshold_ms ==> step(
            cfg,
            PressState::Held { vk, since_ms: down_ms, contaminated: c },
            Event::KeyUp(vk),
            up_ms,
        ).1 == Action::Nothing,
{
}

/// A clean press held for the threshold or longer, measured on the clock
/// (`up_ms - down_ms`), asks for nothing at any point, whatever the length of
/// the hold and however often it auto-repeated.
pub proof fn law_holding_past_the_threshold_never_fires(
    cfg: Config,
    vk: u16,
    down_ms: u64,
    repeats: Seq<u64>,
    up_ms: u64,
)
    requires
        vk == cfg.left_trigger || vk == cfg.right_trigger,
        up_ms >= down_ms,
        up_ms - down_ms >= cfg.threshold_ms,
    ensures
        run(cfg, PressState::Idle, solo_press(vk, down_ms, repeats, up_ms)).0 == PressState::Idle,
        forall|i: int|
            0 <= i < repeats.len() + 2 ==> #[trigger] run(
                cfg,
                PressState::Idle,
                solo_press(vk, down_ms, repeats, up_ms),
            ).1[i] == Action::Nothing,
        run(cfg, PressState::Idle, solo_press(vk, down_ms, repeats, up_ms)).1.len() == repeats.len() + 2,
{
    lemma_solo_press_shape(cfg, vk, down_ms, repeats, up_ms);
}

/// A clean press released sooner than the threshold after it went down,
/// measured on the clock, fires its own side on the release: the left slot's
/// key turns the IME off, the right slot's key turns it on.
pub proof fn law_quick_release_fires_its_side(
    cfg: Config,
    vk: u16,
    down_ms: u64,
    repeats: Seq<u64>,
    up_ms: u64,
)
    requires
        vk == cfg.left_trigger || vk == cfg.right_trigger,
        up_ms >= down_ms,
        up_ms - down_ms < cfg.threshold_ms,
    ensures
        run(cfg, PressState::Idle, solo_press(vk, down_ms, repeats, up_ms)).1.last() == Action::Fire(
            if vk == cfg.left_trigger {
                Side::Left
            } else {
                Side::Right
            },
        ),
{
    lemma_solo_press_shape(cfg, vk, down_ms, repeats, up_ms);
}

/// Every event but a trigger's own release, in plain terms. A key going
/// down while idle starts a press if it is a trigger and is ignored
/// otherwise; while a press is held, the held trigger's auto-repeat changes
/// nothing and any other key going down or up, a mouse button, or a key
/// found already held marks the press as not solo. A reset always ends the
/// press. None of these ever asks for anything.
pub proof fn law_other_events_in_plain_terms(
    cfg: Config,
    held: u16,
    since_ms: u64,
    c: bool,
    k: u16,
    t: u64,
)
    ensures
        ({
            let trigger = k == cfg.left_trigger || k == cfg.right_trigger;
            let st = PressState::Held { vk: held, since_ms, contaminated: c };
            let spoiled = PressState::Held { vk: held, since_ms, contaminated: true };
            &&& step(cfg, PressState::Idle, Event::KeyDown(k), t) == if trigger {
                (PressState::Held { vk: k, since_ms: t, contaminated: false }, Action::Nothing)
            } else {
                (PressState::Idle, Action::Nothing)
            }
            &&& step(cfg, st, Event::KeyDown(k), t) == if k == held && trigger {
                (st, Action::Nothing)
            } else {
                (spoiled, Action::Nothing)
            }
            &&& k != held ==> step(cfg, st, Event::KeyUp(k), t) == (spoiled, Action::Nothing)
            &&& step(cfg, PressState::Idle, Event::KeyUp(k), t) == (PressState::Idle, Action::Nothing)
            &&& step(cfg, st, Event::MouseButton, t) == (spoiled, Action::Nothing)
            &&& step(cfg, st, Event::ForeignKeyHeld, t) == (spoiled, Action::Nothing)
            &&& step(cfg, PressState::Idle, Event::MouseButton, t) == (PressState::Idle, Action::Nothing)
            &&& step(cfg, PressState::Idle, Event::ForeignKeyHeld, t) == (
                PressState::Idle,
                Action::Nothing,
            )
            &&& step(cfg, st, Event::Reset, t) == (PressState::Idle, Action::Nothing)
        }),
{
}

} // verus!
