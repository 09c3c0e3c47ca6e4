use altoggle::autostart::{command_for, is_enabled, removal_result, stale_warning, write_result};
use altoggle::ime::{input_host, input_target, open_status};
use altoggle::machine::{Config, Side};
use altoggle::registry::{reg_sz_bytes, string_from_reg_bytes, units_from_le};
use altoggle::settings::{Runtime, Settings, TriggerKey};
use altoggle::startup::{config_applied_line, exit_after_secs, fire_line, startup_summary};

fn args(list: &[&str]) -> Vec<String> {
    list.iter().map(|s| s.to_string()).collect()
}

#[test]
fn a_string_written_to_the_registry_reads_back_unchanged() {
    for value in ["", "\"C:\\Program Files\\altoggle\\altoggle.exe\"", "日本語", "😀 x"] {
        let bytes = reg_sz_bytes(value);
        assert_eq!(bytes.len() % 2, 0);
        assert_eq!(&bytes[bytes.len() - 2..], &[0, 0]);
        assert_eq!(string_from_reg_bytes(&bytes), value);
    }
}

#[test]
fn registry_bytes_are_little_endian_and_a_stray_byte_is_ignored() {
    assert_eq!(reg_sz_bytes("A"), vec![0x41, 0, 0, 0]);
    assert_eq!(units_from_le(&[0x41, 0x00, 0x42, 0x30, 0x07]), vec![0x41, 0x3042]);
    assert_eq!(string_from_reg_bytes(&[0x61, 0, 0, 0, 0, 0]), "a");
}

#[test]
fn autostart_registers_a_quoted_command_and_reads_outcomes() {
    assert_eq!(command_for("C:\\a b\\altoggle.exe"), "\"C:\\a b\\altoggle.exe\"");
    assert!(is_enabled(&Some("x".to_string())));
    assert!(!is_enabled(&None));
    assert_eq!(removal_result(0, false), Ok(()));
    assert_eq!(removal_result(2, true), Ok(()));
    assert_eq!(
        removal_result(5, false),
        Err("could not remove the Run entry (error 5)".to_string())
    );
    assert_eq!(write_result(0), Ok(()));
    assert_eq!(
        write_result(5),
        Err("could not write the Run entry (error 5)".to_string())
    );
    assert_eq!(stale_warning("\"a\"", "\"a\""), None);
    assert_eq!(
        stale_warning("\"a\"", "\"b\""),
        Some("autostart points at \"a\", not this executable (\"b\"); toggle it off and on to repoint it"
            .to_string())
    );
}

#[test]
fn exit_after_takes_the_first_such_flag() {
    assert_eq!(exit_after_secs(&args(&["--exit-after=30"])), Some(30));
    assert_eq!(exit_after_secs(&args(&["x", "--exit-after=5", "--exit-after=9"])), Some(5));
    assert_eq!(exit_after_secs(&args(&["--exit-after=soon", "--exit-after=9"])), None);
    assert_eq!(exit_after_secs(&args(&["--exit-after"])), None);
    assert_eq!(exit_after_secs(&args(&[])), None);
}

#[test]
fn start_up_and_config_lines() {
    let s = Settings {
        left_trigger: None,
        right_trigger: Some(TriggerKey::RightWin),
        threshold_ms: 350,
        dummy_vk: 0x07,
        show_ime_state: false,
    };
    assert_eq!(
        startup_summary(&s),
        "  solo None -> IME off, solo RightWin -> IME on, hold past 350ms -> ordinary key"
    );
    let rt = Runtime {
        core: Config { left_trigger: 0xA4, right_trigger: 0x5C, threshold_ms: 400 },
        dummy_vk: 0x7C,
    };
    assert_eq!(
        config_applied_line(&rt),
        "config applied: triggers 0xA4/0x5C, 400ms, dummy 0x7C"
    );
    assert_eq!(fire_line(Side::Right, 5, 5), "fire Right");
    assert_eq!(
        fire_line(Side::Left, 1, 5),
        "fire Left FAILED (SendInput=1/5), releasing modifiers"
    );
}

#[test]
fn the_ime_is_asked_through_the_focus_of_the_core_window() {
    assert_eq!(input_host(100, 0), 100);
    assert_eq!(input_host(100, 200), 200);
    assert_eq!(input_target(200, 0), 200);
    assert_eq!(input_target(200, 300), 300);
    assert_eq!(open_status(false, 1), None);
    assert_eq!(open_status(true, 1), Some(true));
    assert_eq!(open_status(true, 0), Some(false));
}
