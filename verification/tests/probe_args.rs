use altoggle::probe_args::{altprobe, imeprobe, parse_trigger, ProbeArgs};
use altoggle::settings::TriggerKey;

fn args(list: &[&str]) -> Vec<String> {
    list.iter().map(|s| s.to_string()).collect()
}

#[test]
fn a_misspelled_trigger_is_an_error_rather_than_a_silent_default() {
    // The whole point: a probe run that quietly watched the wrong key would
    // report a confident wrong answer.
    assert!(parse_trigger("LeftWindows").is_err());
    assert_eq!(parse_trigger("leftwin"), Ok(TriggerKey::LeftWin));
}

#[test]
fn the_usage_line_lists_every_trigger() {
    let text = altprobe().usage();
    for key in TriggerKey::all() {
        assert!(text.contains(key.name()), "{} missing", key.name());
    }
}

#[test]
fn the_usage_line_hides_split_from_the_probe_that_never_reads_it() {
    // `altprobe` rejects it too, so advertising it would be a lie.
    assert!(!altprobe().usage().contains("--split"));
}

#[test]
fn the_usage_line_offers_split_on_the_probe_that_reads_it() {
    assert!(imeprobe().usage().contains("--split"));
}

#[test]
fn the_usage_line_is_spelled_out_in_full() {
    assert_eq!(
        altprobe().usage(),
        "usage: altprobe [--secs=N] [--dummy=HEX] [--left=KEY] [--right=KEY] [--threshold=MS] [--dry-run]\n  \
         KEY: LeftAlt, RightAlt, LeftCtrl, RightCtrl, LeftShift, RightShift, LeftWin, RightWin, Menu\n  \
         --dry-run: print the settings and exit, installing no hook"
    );
}

#[test]
fn no_flags_gives_the_probes_defaults() {
    let a = altprobe().parse(&args(&[])).unwrap();
    assert_eq!(
        a,
        ProbeArgs {
            secs: 90,
            dummy_vk: 0x07,
            left: TriggerKey::LeftAlt,
            right: TriggerKey::RightAlt,
            split: false,
            threshold_ms: 400,
            dry_run: false,
        }
    );
    assert_eq!(imeprobe().parse(&args(&[])).unwrap().secs, 120);
}

#[test]
fn every_flag_is_read() {
    let a = imeprobe()
        .parse(&args(&[
            "--secs=0",
            "--dummy=0x7C",
            "--left=leftwin",
            "--right=RIGHTWIN",
            "--threshold=900",
            "--split",
            "--dry-run",
        ]))
        .unwrap();
    assert_eq!(a.secs, 0);
    assert_eq!(a.dummy_vk, 0x7C);
    assert_eq!(a.left, TriggerKey::LeftWin);
    assert_eq!(a.right, TriggerKey::RightWin);
    assert_eq!(a.threshold_ms, 900);
    assert!(a.split);
    assert!(a.dry_run);
    assert_eq!(a.config().left_trigger, 0x5B);
    assert_eq!(a.config().right_trigger, 0x5C);
    assert_eq!(a.config().threshold_ms, 900);
}

#[test]
fn split_is_refused_by_the_probe_that_never_reads_it() {
    assert_eq!(
        altprobe().parse(&args(&["--split"])),
        Err("unknown argument --split".to_string())
    );
}

#[test]
fn malformed_values_are_refused_with_the_reason() {
    assert_eq!(
        altprobe().parse(&args(&["--secs"])),
        Err("--secs needs a value".to_string())
    );
    let e = altprobe().parse(&args(&["--threshold=fast"])).unwrap_err();
    assert!(e.starts_with("--threshold=fast is not a number: "), "{e}");
    let e = altprobe().parse(&args(&["--dummy=zz"])).unwrap_err();
    assert!(e.starts_with("--dummy=zz is not a hex byte: "), "{e}");
    assert_eq!(
        altprobe().parse(&args(&["--left=Space"])),
        Err("Space is not a trigger key. One of: LeftAlt, RightAlt, LeftCtrl, RightCtrl, \
             LeftShift, RightShift, LeftWin, RightWin, Menu"
            .to_string())
    );
    assert_eq!(
        altprobe().parse(&args(&["--verbose=1"])),
        Err("unknown argument --verbose".to_string())
    );
}

#[test]
fn the_first_refusal_wins() {
    assert_eq!(
        altprobe().parse(&args(&["--bogus", "--secs"])),
        Err("unknown argument --bogus".to_string())
    );
}

#[test]
fn settings_that_cannot_work_are_refused_like_in_the_dialog() {
    assert_eq!(
        altprobe().parse(&args(&["--left=RightAlt"])),
        Err("RightAlt is set for both, so nothing would turn the IME on.".to_string())
    );
    assert_eq!(
        altprobe().parse(&args(&["--threshold=0"])),
        Err("A threshold of 0 never fires: no press is shorter than it.".to_string())
    );
    assert_eq!(
        altprobe().parse(&args(&["--dummy=A4"])),
        Err("LeftAlt acts on its own solo press, so it cannot be the dummy.".to_string())
    );
}

#[test]
fn the_header_spells_out_what_is_injected() {
    let a = altprobe().parse(&args(&["--left=LeftWin"])).unwrap();
    assert_eq!(
        a.describe("/src/altoggle", 0xE05B, 0xE038, 0x0000),
        "built from: /src/altoggle\n\
         off: LeftWin (vk 0x5B, scan 0x5B, extended)\n\
         on:  RightAlt (vk 0xA5, scan 0x38, extended)\n\
         dummy: dummy (vk 0x07, scan 0x00)\n\
         threshold: 400ms"
    );
}

#[test]
fn a_flag_that_takes_no_value_refuses_one() {
    assert_eq!(
        imeprobe().parse(&args(&["--split=no"])),
        Err("--split takes no value".to_string())
    );
    assert_eq!(
        altprobe().parse(&args(&["--dry-run=no"])),
        Err("--dry-run takes no value".to_string())
    );
    assert_eq!(
        imeprobe().parse(&args(&["--dry-run="])),
        Err("--dry-run takes no value".to_string())
    );
    // The bare flags still work.
    let a = imeprobe().parse(&args(&["--split", "--dry-run"])).unwrap();
    assert!(a.split && a.dry_run);
    // altprobe has never heard of --split, with or without a value.
    assert_eq!(
        altprobe().parse(&args(&["--split=yes"])),
        Err("unknown argument --split".to_string())
    );
}
