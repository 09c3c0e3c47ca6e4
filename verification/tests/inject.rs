use altoggle::hook::fire_batch;
use altoggle::ime::{set_open_strokes, VK_IME_OFF, VK_IME_ON};
use altoggle::inject::{
    batch_report, is_extended, key_flags, release_batch, released_on_failure, scan_code, scan_of, suppress,
    suppression_for, KeyStroke, Suppression, INJECT_TAG,
};
use altoggle::machine::Side;

const fn down(vk: u16) -> KeyStroke {
    KeyStroke { vk, up: false }
}

const fn up(vk: u16) -> KeyStroke {
    KeyStroke { vk, up: true }
}

#[test]
fn the_scan_code_carries_no_prefix_and_the_prefix_becomes_the_flag() {
    // What MapVirtualKeyW(MAPVK_VK_TO_VSC_EX) reports for right Alt, left Alt
    // and left Win.
    assert_eq!(scan_code(0xE038), (0x38, true));
    assert_eq!(scan_code(0x0038), (0x38, false));
    assert_eq!(scan_code(0xE05B), (0x5B, true));
    // Pause's 0xE1 prefix is not an extended key.
    assert!(!is_extended(0xE11D));
    assert_eq!(scan_of(0), 0);
}

#[test]
fn flags_mark_ups_and_extended_keys() {
    assert_eq!(key_flags(false, false), 0);
    assert_eq!(key_flags(true, false), 0x2);
    assert_eq!(key_flags(false, true), 0x1);
    assert_eq!(key_flags(true, true), 0x3);
    assert_eq!(INJECT_TAG, 0xA170_66E1);
}

#[test]
fn only_the_menu_key_is_swallowed() {
    assert_eq!(suppression_for(0x5D), Suppression::Swallow);
    assert_eq!(suppression_for(0xA4), Suppression::DummyThenUp);
    assert_eq!(suppress(0x07, 0xA5), vec![down(0x07), up(0x07), up(0xA5)]);
    assert_eq!(suppress(0x07, 0x5D), vec![]);
}

#[test]
fn a_fire_suppresses_first_and_switches_the_ime_last() {
    assert_eq!(
        fire_batch(Side::Right, 0x07, 0xA5),
        vec![down(0x07), up(0x07), up(0xA5), down(VK_IME_ON), up(VK_IME_ON)]
    );
    assert_eq!(
        fire_batch(Side::Left, 0x07, 0x5D),
        vec![down(VK_IME_OFF), up(VK_IME_OFF)]
    );
    assert_eq!(set_open_strokes(true), vec![down(0x16), up(0x16)]);
}

#[test]
fn the_release_batch_lets_go_of_every_modifier_and_not_the_menu_key() {
    let batch = release_batch();
    assert_eq!(batch.len(), 8);
    assert!(batch.iter().all(|k| k.up));
    assert_eq!(
        batch.iter().map(|k| k.vk).collect::<Vec<_>>(),
        released_on_failure().to_vec()
    );
    assert!(!released_on_failure().contains(&0x5D));
}

#[test]
fn an_empty_batch_reports_nothing_sent_and_nothing_expected() {
    assert_eq!(batch_report(0, 0), (0, 0));
    assert_eq!(batch_report(5, 3), (3, 5));
}
