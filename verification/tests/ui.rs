use altoggle::dialog::{
    button_x, centred, combo_choice, combo_index, combo_labels, command_of, committable, dip, dpi_of,
    keep_triggers_distinct, read, revalidate, row, DialogCommand, Outbox, NONE_LABEL,
};
use altoggle::session::{reinstalls_hooks, state_name};
use altoggle::settings::{Settings, TriggerKey};
use altoggle::tray::Command;

#[test]
fn layout_arithmetic() {
    assert_eq!(row(0), 11);
    assert_eq!(row(2), 69);
    assert_eq!(button_x(0), 189);
    assert_eq!(button_x(2), 15);
    assert_eq!(dip(280, 96), 280);
    assert_eq!(dip(280, 144), 420);
    assert_eq!(dip(11, 120), 13);
    // A font height in its negative form rounds toward zero too.
    assert_eq!(dip(-12, 144), -18);
    assert_eq!(dip(-11, 120), -13);
}

#[test]
fn dropdown_rows_are_none_then_every_trigger() {
    assert_eq!(combo_choice(0), Some(None));
    assert_eq!(combo_choice(1), Some(Some(TriggerKey::LeftAlt)));
    assert_eq!(combo_choice(9), Some(Some(TriggerKey::Menu)));
    assert_eq!(combo_choice(-1), None);
    assert_eq!(combo_choice(10), None);
    for key in TriggerKey::all() {
        assert_eq!(combo_choice(combo_index(Some(key)) as isize), Some(Some(key)));
    }
    assert_eq!(combo_index(None), 0);
}

#[test]
fn picking_the_other_sides_key_swaps_the_two() {
    let was = (Some(TriggerKey::LeftAlt), Some(TriggerKey::RightAlt));
    assert_eq!(
        keep_triggers_distinct(Some(TriggerKey::RightAlt), Some(TriggerKey::RightAlt), was, true),
        (Some(TriggerKey::RightAlt), Some(TriggerKey::LeftAlt))
    );
    assert_eq!(
        keep_triggers_distinct(Some(TriggerKey::LeftAlt), Some(TriggerKey::LeftAlt), was, false),
        (Some(TriggerKey::RightAlt), Some(TriggerKey::LeftAlt))
    );
    // Two (none)s are not a clash.
    assert_eq!(
        keep_triggers_distinct(None, None, (Some(TriggerKey::Menu), None), true),
        (None, None)
    );
}

#[test]
fn the_controls_are_read_and_refused_in_order() {
    let slot = Some(Some(TriggerKey::LeftWin));
    assert_eq!(read(None, "07", slot, slot, false), Err("A threshold is required."));
    assert_eq!(read(Some(400), "", slot, slot, false), Err("A dummy key is required."));
    assert_eq!(
        read(Some(400), "0x07", slot, slot, false),
        Err("The dummy key is hex: two digits, 00 to FF, no 0x.")
    );
    assert_eq!(read(Some(400), "07", None, slot, false), Err("Nothing is selected."));
    assert_eq!(
        read(Some(300), "7c", Some(None), slot, false),
        Ok(Settings {
            left_trigger: None,
            right_trigger: Some(TriggerKey::LeftWin),
            threshold_ms: 300,
            dummy_vk: 0x7C,
            show_ime_state: false,
        })
    );
    assert_eq!(
        read(Some(400), "07", slot, Some(None), true),
        Ok(Settings {
            left_trigger: Some(TriggerKey::LeftWin),
            right_trigger: None,
            show_ime_state: true,
            ..Settings::default()
        })
    );
}

#[test]
fn ok_and_apply_follow_the_hint() {
    let applied = Settings::default();
    let v = revalidate(Ok(applied), applied);
    assert_eq!((v.hint.as_str(), v.blocked, v.apply_enabled), ("", false, false));
    let changed = Settings { threshold_ms: 300, ..applied };
    let v = revalidate(Ok(changed), applied);
    assert_eq!((v.hint.as_str(), v.blocked, v.apply_enabled), ("", false, true));
    let broken = Settings { threshold_ms: 0, ..applied };
    let v = revalidate(Ok(broken), applied);
    assert!(v.blocked && !v.apply_enabled);
    assert_eq!(v.hint, "A threshold of 0 never fires: no press is shorter than it.");
    let v = revalidate(Err("Nothing is selected."), applied);
    assert_eq!((v.hint.as_str(), v.blocked), ("Nothing is selected.", true));
    assert_eq!(committable(Ok(changed)), Some(changed));
    assert_eq!(committable(Ok(broken)), None);
    assert_eq!(committable(Err("A threshold is required.")), None);
}

#[test]
fn the_outbox_hands_on_everything_once_in_order() {
    let mut outbox = Outbox::new();
    assert!(outbox.poll().is_empty());
    let a = Settings::default();
    let b = Settings { threshold_ms: 250, ..a };
    outbox.push(a);
    outbox.push(b);
    assert_eq!(outbox.poll(), vec![a, b]);
    assert!(outbox.poll().is_empty());
}

#[test]
fn only_a_returning_desktop_reinstalls_the_hooks() {
    for state in [0x1, 0x3, 0x5, 0x8] {
        assert!(reinstalls_hooks(state));
    }
    for state in [0x2, 0x4, 0x6, 0x7] {
        assert!(!reinstalls_hooks(state));
    }
    assert_eq!(state_name(0x8), "session unlock");
    assert_eq!(state_name(0x7), "other");
}

#[test]
fn tray_commands_are_distinct() {
    assert_ne!(Command::Quit, Command::OpenSettings);
    assert_eq!(Command::ReinstallHooks, Command::ReinstallHooks);
    assert_ne!(Command::ToggleAutostart, Command::Quit);
}

#[test]
fn every_dropdown_row_is_labelled_with_what_it_selects() {
    let labels = combo_labels();
    assert_eq!(labels.len(), 10);
    assert_eq!(labels[0], NONE_LABEL);
    assert_eq!(labels[1], "LeftAlt");
    assert_eq!(labels[9], "Menu");
    for (i, label) in labels.iter().enumerate() {
        match combo_choice(i as isize) {
            Some(Some(key)) => assert_eq!(*label, key.name()),
            Some(None) => assert_eq!(*label, "(none)"),
            None => panic!("row {i} reads as nothing"),
        }
    }
}

#[test]
fn commands_are_decoded_from_the_control_and_the_notification() {
    // CBN_SELCHANGE from the left dropdown.
    assert_eq!(command_of((1 << 16) | 100), DialogCommand::TriggerChanged { left: true });
    assert_eq!(command_of((1 << 16) | 101), DialogCommand::TriggerChanged { left: false });
    // Another notification from a dropdown is not a change.
    assert_eq!(command_of((3 << 16) | 100), DialogCommand::Ignore);
    // EN_CHANGE from either edit.
    assert_eq!(command_of((0x0300 << 16) | 102), DialogCommand::FieldEdited);
    assert_eq!(command_of((0x0300 << 16) | 103), DialogCommand::FieldEdited);
    assert_eq!(command_of((0x0100 << 16) | 103), DialogCommand::Ignore);
    // BN_CLICKED from the IME display checkbox.
    assert_eq!(command_of(104), DialogCommand::FieldEdited);
    assert_eq!(command_of((5 << 16) | 104), DialogCommand::Ignore);
    // Buttons act whatever the notification, Enter and Esc included.
    assert_eq!(command_of(1), DialogCommand::Accept);
    assert_eq!(command_of(2), DialogCommand::Cancel);
    assert_eq!(command_of(106), DialogCommand::Apply);
    assert_eq!(command_of(105), DialogCommand::Ignore);
}

#[test]
fn the_new_dpi_is_the_low_word() {
    assert_eq!(dpi_of((144 << 16) | 144), 144);
    assert_eq!(dpi_of(96), 96);
}

#[test]
fn windows_are_centred_in_the_work_area() {
    assert_eq!(centred(0, 1920, 300), 810);
    assert_eq!(centred(100, 200, 51), 124);
    // Wider than the area: the overhang is shared, rounding toward the start.
    assert_eq!(centred(0, 100, 151), -25);
}
