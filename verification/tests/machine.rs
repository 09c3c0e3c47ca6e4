use altoggle::machine::{Action, Config, Event, Machine, Side, VK_LMENU, VK_RMENU};

fn machine() -> Machine {
    Machine::new(Config::default())
}

/// An arbitrary non-trigger key (`X`).
const VK_X: u16 = 0x58;
const VK_LCONTROL: u16 = 0xA2;

#[test]
fn solo_press_of_right_alt_fires() {
    let mut m = machine();
    assert_eq!(m.on_event(Event::KeyDown(VK_RMENU), 0), Action::Nothing);
    assert_eq!(
        m.on_event(Event::KeyUp(VK_RMENU), 87),
        Action::Fire(Side::Right)
    );
}

#[test]
fn solo_press_of_left_alt_fires() {
    let mut m = machine();
    m.on_event(Event::KeyDown(VK_LMENU), 0);
    assert_eq!(
        m.on_event(Event::KeyUp(VK_LMENU), 215),
        Action::Fire(Side::Left)
    );
}

#[test]
fn longest_measured_solo_press_215ms_still_fires() {
    // A 300ms threshold would make this a coin flip. Hence 400ms.
    let mut m = machine();
    m.on_event(Event::KeyDown(VK_LMENU), 7188);
    assert_eq!(
        m.on_event(Event::KeyUp(VK_LMENU), 7403),
        Action::Fire(Side::Left)
    );
}

#[test]
fn alt_plus_another_key_does_not_fire() {
    let mut m = machine();
    m.on_event(Event::KeyDown(VK_LMENU), 0);
    m.on_event(Event::KeyDown(VK_X), 50);
    m.on_event(Event::KeyUp(VK_X), 100);
    assert_eq!(m.on_event(Event::KeyUp(VK_LMENU), 150), Action::Nothing);
}

#[test]
fn press_longer_than_the_threshold_does_not_fire() {
    let mut m = machine();
    m.on_event(Event::KeyDown(VK_RMENU), 0);
    // Boundary: exactly 400ms does not fire.
    assert_eq!(m.on_event(Event::KeyUp(VK_RMENU), 400), Action::Nothing);
}

#[test]
fn auto_repeat_does_not_count_as_another_key() {
    let mut m = machine();
    m.on_event(Event::KeyDown(VK_RMENU), 0);
    // 31ms apart, as measured. Still allowed to fire within the threshold.
    for t in [200, 231, 262, 293] {
        assert_eq!(m.on_event(Event::KeyDown(VK_RMENU), t), Action::Nothing);
    }
    assert_eq!(
        m.on_event(Event::KeyUp(VK_RMENU), 320),
        Action::Fire(Side::Right)
    );
}

#[test]
fn sustained_auto_repeat_is_rejected_by_the_time_threshold() {
    let mut m = machine();
    m.on_event(Event::KeyDown(VK_RMENU), 19901);
    // Measured: repeat started 512ms in.
    for t in [20413, 20444, 20475, 20775] {
        m.on_event(Event::KeyDown(VK_RMENU), t);
    }
    assert_eq!(m.on_event(Event::KeyUp(VK_RMENU), 20789), Action::Nothing);
}

#[test]
fn both_alts_at_once_fires_neither() {
    let mut m = machine();
    m.on_event(Event::KeyDown(VK_RMENU), 0);
    m.on_event(Event::KeyDown(VK_LMENU), 30);
    assert_eq!(m.on_event(Event::KeyUp(VK_LMENU), 60), Action::Nothing);
    assert_eq!(m.on_event(Event::KeyUp(VK_RMENU), 90), Action::Nothing);
}

#[test]
fn alt_drag_does_not_fire() {
    // The measured sequence at t=35.134:
    // Alt down -> LBUTTONDOWN -> auto-repeat -> LBUTTONUP -> Alt up
    let mut m = machine();
    m.on_event(Event::KeyDown(VK_LMENU), 0);
    m.on_event(Event::MouseButton, 352);
    assert_eq!(m.on_event(Event::KeyUp(VK_LMENU), 380), Action::Nothing);
}

#[test]
fn a_modifier_already_held_prevents_firing() {
    // The adapter emits ForeignKeyHeld right after the Alt down.
    let mut m = machine();
    m.on_event(Event::KeyDown(VK_LMENU), 0);
    m.on_event(Event::ForeignKeyHeld, 0);
    assert_eq!(m.on_event(Event::KeyUp(VK_LMENU), 50), Action::Nothing);
}

#[test]
fn foreign_key_held_is_harmless_while_idle() {
    // Getting the order wrong must not fail towards "never fires again".
    let mut m = machine();
    m.on_event(Event::ForeignKeyHeld, 0);
    m.on_event(Event::KeyDown(VK_LMENU), 0);
    assert_eq!(
        m.on_event(Event::KeyUp(VK_LMENU), 50),
        Action::Fire(Side::Left)
    );
}

#[test]
fn releasing_a_prior_modifier_also_contaminates() {
    // Even if ForeignKeyHeld was missed, releasing Ctrl contaminates the press.
    let mut m = machine();
    m.on_event(Event::KeyDown(VK_LMENU), 0);
    m.on_event(Event::KeyUp(VK_LCONTROL), 20);
    assert_eq!(m.on_event(Event::KeyUp(VK_LMENU), 50), Action::Nothing);
}

#[test]
fn releasing_a_key_pressed_before_alt_contaminates() {
    let mut m = machine();
    m.on_event(Event::KeyDown(VK_LMENU), 0);
    m.on_event(Event::KeyUp(VK_X), 20);
    assert_eq!(m.on_event(Event::KeyUp(VK_LMENU), 50), Action::Nothing);
}

#[test]
fn reset_discards_the_held_state() {
    let mut m = machine();
    m.on_event(Event::KeyDown(VK_RMENU), 0);
    m.on_event(Event::Reset, 10);
    // The up event after a foreground change is dangling, so it must not fire.
    assert_eq!(m.on_event(Event::KeyUp(VK_RMENU), 50), Action::Nothing);
}

#[test]
fn an_up_without_a_matching_held_state_is_ignored() {
    let mut m = machine();
    assert_eq!(m.on_event(Event::KeyUp(VK_RMENU), 0), Action::Nothing);
}

#[test]
fn releasing_and_pressing_again_after_contamination_fires() {
    let mut m = machine();
    m.on_event(Event::KeyDown(VK_LMENU), 0);
    m.on_event(Event::KeyDown(VK_X), 10);
    m.on_event(Event::KeyUp(VK_X), 20);
    assert_eq!(m.on_event(Event::KeyUp(VK_LMENU), 30), Action::Nothing);
    m.on_event(Event::KeyDown(VK_LMENU), 100);
    assert_eq!(
        m.on_event(Event::KeyUp(VK_LMENU), 150),
        Action::Fire(Side::Left)
    );
}

#[test]
fn a_new_threshold_takes_effect_from_the_next_press() {
    let mut m = machine();
    // Long enough to fire under the 400ms default.
    m.on_event(Event::KeyDown(VK_RMENU), 0);
    assert_eq!(
        m.on_event(Event::KeyUp(VK_RMENU), 300),
        Action::Fire(Side::Right)
    );

    m.set_config(Config {
        threshold_ms: 200,
        ..Config::default()
    });

    m.on_event(Event::KeyDown(VK_RMENU), 1000);
    assert_eq!(m.on_event(Event::KeyUp(VK_RMENU), 1300), Action::Nothing);
    m.on_event(Event::KeyDown(VK_RMENU), 2000);
    assert_eq!(
        m.on_event(Event::KeyUp(VK_RMENU), 2100),
        Action::Fire(Side::Right)
    );
}

#[test]
fn trigger_keys_can_be_swapped() {
    // Solo-press detection is shared; only which keys to watch is configurable.
    let mut m = machine();
    m.set_config(Config {
        left_trigger: VK_LCONTROL,
        right_trigger: VK_RMENU,
        ..Config::default()
    });
    m.on_event(Event::KeyDown(VK_LCONTROL), 0);
    assert_eq!(
        m.on_event(Event::KeyUp(VK_LCONTROL), 50),
        Action::Fire(Side::Left)
    );
    // Left Alt is no longer a trigger, so a solo press does nothing.
    m.on_event(Event::KeyDown(VK_LMENU), 100);
    assert_eq!(m.on_event(Event::KeyUp(VK_LMENU), 150), Action::Nothing);
}

#[test]
fn changing_the_config_discards_the_held_state() {
    let mut m = machine();
    m.on_event(Event::KeyDown(VK_RMENU), 0);
    m.set_config(Config::default());
    // The dangling up event must not fire.
    assert_eq!(m.on_event(Event::KeyUp(VK_RMENU), 50), Action::Nothing);
}

#[test]
fn two_solo_presses_in_a_row_both_fire() {
    let mut m = machine();
    m.on_event(Event::KeyDown(VK_RMENU), 0);
    assert_eq!(
        m.on_event(Event::KeyUp(VK_RMENU), 30),
        Action::Fire(Side::Right)
    );
    m.on_event(Event::KeyDown(VK_LMENU), 100);
    assert_eq!(
        m.on_event(Event::KeyUp(VK_LMENU), 212),
        Action::Fire(Side::Left)
    );
}
