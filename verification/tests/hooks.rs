use altoggle::dispatch::{dispatch, is_button_down, needs_modifier_check};
use altoggle::inject::INJECT_TAG;
use altoggle::keys::{key_is_down, modifiers_to_check};
use altoggle::lowlevel::{on_keyboard, on_mouse, reset, Fire, KeyOutcome};
use altoggle::machine::{Action, Config, Machine, Side, VK_LMENU, VK_RMENU};

const VK_X: u16 = 0x58;
const VK_LCONTROL: u16 = 0xA2;

fn machine() -> Machine {
    Machine::new(Config::default())
}

#[test]
fn a_trigger_press_with_a_modifier_held_is_reported_and_never_fires() {
    let mut m = machine();
    assert!(needs_modifier_check(&m, VK_LMENU, false));
    assert_eq!(dispatch(&mut m, VK_LMENU, false, 0, true), (Action::Nothing, true));
    assert_eq!(dispatch(&mut m, VK_LMENU, true, 50, false), (Action::Nothing, false));
}

#[test]
fn only_a_trigger_going_down_is_checked_for_held_modifiers() {
    let m = machine();
    assert!(!needs_modifier_check(&m, VK_LMENU, true));
    assert!(!needs_modifier_check(&m, VK_X, false));
    // A foreign answer on a non-trigger is ignored.
    let mut m = machine();
    assert_eq!(dispatch(&mut m, VK_X, false, 0, true), (Action::Nothing, false));
}

#[test]
fn a_clean_press_dispatched_fires() {
    let mut m = machine();
    assert_eq!(dispatch(&mut m, VK_RMENU, false, 0, false), (Action::Nothing, false));
    assert_eq!(dispatch(&mut m, VK_RMENU, true, 90, false), (Action::Fire(Side::Right), false));
}

#[test]
fn our_own_injections_pass_straight_through() {
    let mut m = machine();
    on_keyboard(&mut m, 0, VK_RMENU, false, 0, false);
    // The injected up of the trigger must not complete the press.
    let out = on_keyboard(&mut m, INJECT_TAG, VK_RMENU, true, 10, false);
    assert_eq!(out, KeyOutcome { block: false, fire: None, contaminated: false });
    let out = on_keyboard(&mut m, 0, VK_RMENU, true, 20, false);
    assert_eq!(
        out,
        KeyOutcome {
            block: true,
            fire: Some(Fire { side: Side::Right, trigger_vk: VK_RMENU, at: 20 }),
            contaminated: false,
        }
    );
}

#[test]
fn a_mouse_button_spoils_the_press_and_other_mouse_messages_do_not() {
    let mut m = machine();
    on_keyboard(&mut m, 0, VK_LMENU, false, 0, false);
    on_mouse(&mut m, 0x0200, 5); // WM_MOUSEMOVE
    assert!(on_keyboard(&mut m, 0, VK_LMENU, true, 10, false).block);
    on_keyboard(&mut m, 0, VK_LMENU, false, 20, false);
    on_mouse(&mut m, 0x0201, 25); // WM_LBUTTONDOWN
    assert!(!on_keyboard(&mut m, 0, VK_LMENU, true, 30, false).block);
}

#[test]
fn the_four_button_downs_are_button_downs() {
    for msg in [0x0201usize, 0x0204, 0x0207, 0x020B] {
        assert!(is_button_down(msg), "{msg:#x}");
    }
    for msg in [0x0200usize, 0x0202, 0x020A, 0x1_0000_0201] {
        assert_eq!(is_button_down(msg), msg as u32 == 0x0201, "{msg:#x}");
    }
}

#[test]
fn a_reset_drops_the_press() {
    let mut m = machine();
    on_keyboard(&mut m, 0, VK_RMENU, false, 0, false);
    reset(&mut m, 5);
    assert!(!on_keyboard(&mut m, 0, VK_RMENU, true, 10, false).block);
}

#[test]
fn the_trigger_is_never_asked_about_itself() {
    assert_eq!(
        modifiers_to_check(VK_LCONTROL),
        vec![0xA3, 0xA0, 0xA1, 0xA4, 0xA5, 0x5B, 0x5C]
    );
    assert_eq!(modifiers_to_check(0x5D).len(), 8);
}

#[test]
fn the_top_bit_of_the_key_state_means_down() {
    assert!(key_is_down(i16::MIN));
    assert!(key_is_down(-32767));
    assert!(!key_is_down(1));
    assert!(!key_is_down(0));
}
