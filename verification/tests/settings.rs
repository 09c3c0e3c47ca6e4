use altoggle::inject::{released_on_failure, suppression_for, Suppression};
use altoggle::machine::VK_NONE;
use altoggle::settings::{loaded_from_text, Loaded};
use altoggle::toml_doc::{TomlEntry, TomlValue};
use altoggle::settings::{
    render, slot_name, trigger_name_comment, Problem, Settings, TriggerKey, MESSAGE_BUDGET, NONE_NAME,
};

#[test]
fn the_rendered_defaults_parse_back_into_the_defaults() {
    // The file handed to the user must not disagree with the built-in
    // defaults, or the first reload would silently change behaviour.
    let text = render(&Settings::default());
    let parsed: Settings = Settings::from_toml(&text).expect("rendered file must be valid TOML");
    assert_eq!(parsed, Settings::default());
}

#[test]
fn every_setting_round_trips_through_render() {
    // `None` in each slot as well as every key, because an empty slot is a
    // spelling in the file like any other.
    for key in TriggerKey::all().map(Some).into_iter().chain([None]) {
        let other = TriggerKey::all()
            .into_iter()
            .map(Some)
            .find(|k| *k != key)
            .expect("more than one trigger");
        for settings in [
            Settings {
                left_trigger: key,
                right_trigger: other,
                threshold_ms: 250,
                dummy_vk: 124,
                show_ime_state: false,
            },
            Settings {
                left_trigger: other,
                right_trigger: key,
                threshold_ms: 1,
                dummy_vk: 135,
                show_ime_state: false,
            },
            Settings {
                left_trigger: None,
                right_trigger: None,
                threshold_ms: 400,
                dummy_vk: 7,
                show_ime_state: false,
            },
            Settings {
                show_ime_state: true,
                ..Settings::default()
            },
        ] {
            let text = render(&settings);
            let parsed: Settings = Settings::from_toml(&text)
                .unwrap_or_else(|e| panic!("{} rendered invalid TOML: {e}", slot_name(key)));
            assert_eq!(parsed, settings);
        }
    }
}

#[test]
fn render_substitutes_every_field() {
    // Every field differs from its default, so a default leaking through
    // means that field was never substituted.
    let text = render(&Settings {
        left_trigger: Some(TriggerKey::LeftWin),
        right_trigger: Some(TriggerKey::Menu),
        threshold_ms: 321,
        dummy_vk: 130,
        show_ime_state: false,
    });
    assert!(text.contains(r#"left_trigger = "LeftWin""#), "{text}");
    assert!(text.contains(r#"right_trigger = "Menu""#), "{text}");
    assert!(text.contains("threshold_ms = 321"), "{text}");
    assert!(text.contains("dummy_vk = 0x82"), "{text}");
    assert!(!text.contains(r#"= "LeftAlt""#), "{text}");
    assert!(!text.contains("= 400"), "{text}");
    assert!(!text.contains("= 0x07"), "{text}");
}

#[test]
fn the_dummy_key_is_written_and_read_back_as_hex() {
    // The dialog and `--dummy` both speak hex, so the file does too; TOML
    // reads `0x07` as an integer, and an older file's decimal 7 still works.
    let text = render(&Settings::default());
    assert!(text.contains("dummy_vk = 0x07"), "{text}");
    assert_eq!(
        Settings::from_toml(&text).unwrap().dummy_vk,
        Settings::default().dummy_vk
    );
    assert_eq!(Settings::from_toml("dummy_vk = 7").unwrap().dummy_vk, 0x07);
}

#[test]
fn every_problem_fits_the_dialogs_label() {
    // The widest case of each variant: whichever trigger has the longest
    // name, in every position a name can appear.
    let longest = TriggerKey::all()
        .into_iter()
        .max_by_key(|k| k.name().len())
        .unwrap();
    let mut all = vec![
        Problem::SameTrigger(longest),
        Problem::ThresholdZero,
        Problem::DummyZero,
        Problem::DummyIsTrigger(longest),
    ];
    // Plus whatever real settings actually produce, so a variant added
    // later cannot slip past the hand-written list above.
    all.extend(
        Settings {
            left_trigger: Some(TriggerKey::Menu),
            right_trigger: Some(TriggerKey::Menu),
            threshold_ms: 0,
            dummy_vk: 0xA4,
            show_ime_state: false,
        }
        .problems(),
    );
    for problem in all {
        let message = problem.message();
        assert!(
            message.len() <= MESSAGE_BUDGET,
            "{problem:?} is {} characters, over the {MESSAGE_BUDGET} budget: {message}",
            message.len()
        );
    }
}

#[test]
fn trigger_keys_round_trip_through_their_names() {
    let text = r#"
        left_trigger = "LeftCtrl"
        right_trigger = "RightShift"
        threshold_ms = 250
        dummy_vk = 124
    "#;
    let s: Settings = Settings::from_toml(text).unwrap();
    assert_eq!(s.left_trigger, Some(TriggerKey::LeftCtrl));
    assert_eq!(s.runtime().core.left_trigger, 0xA2);
    assert_eq!(s.runtime().core.right_trigger, 0xA1);
    assert_eq!(s.runtime().core.threshold_ms, 250);
    assert_eq!(s.runtime().dummy_vk, 124);
}

#[test]
fn a_missing_key_falls_back_to_its_default() {
    // And so is *not* how a trigger gets switched off — `NONE_NAME` is,
    // which is the whole reason it has to be a word rather than an absence.
    let s: Settings = Settings::from_toml("threshold_ms = 300").unwrap();
    assert_eq!(s.threshold_ms, 300);
    assert_eq!(s.left_trigger, Some(TriggerKey::LeftAlt));
}

#[test]
fn a_trigger_can_be_switched_off_from_the_file() {
    let text = format!("left_trigger = \"{NONE_NAME}\"\nright_trigger = \"{NONE_NAME}\"\n");
    let s: Settings = Settings::from_toml(&text).unwrap();
    assert_eq!(s.left_trigger, None);
    assert_eq!(s.right_trigger, None);
    // Both off is inert, not an error: the core matches on the vk, and
    // `VK_NONE` is not one any event can carry.
    assert_eq!(s.problems(), Vec::new());
    assert_eq!(s.runtime().core.left_trigger, VK_NONE);
    assert_eq!(s.runtime().core.right_trigger, VK_NONE);
}

#[test]
fn a_misspelled_key_is_rejected_rather_than_ignored() {
    // Silently ignoring "treshold_ms" would look like the setting did nothing.
    let err = Settings::from_toml("treshold_ms = 300").unwrap_err();
    assert!(err.to_string().contains("treshold_ms"), "{err}");
}

#[test]
fn an_unknown_trigger_name_is_rejected() {
    assert!(Settings::from_toml(r#"left_trigger = "Space""#).is_err());
}

#[test]
fn every_trigger_name_is_accepted_by_the_parser() {
    // `name()` feeds the probes' command lines and the file's comment, while
    // the slot reader reads the file itself. They must agree on every
    // variant, or a name the comment offers would be rejected on use.
    for key in TriggerKey::all() {
        let text = format!("left_trigger = \"{}\"", key.name());
        let s: Settings = Settings::from_toml(&text)
            .unwrap_or_else(|e| panic!("{} is not accepted by the parser: {e}", key.name()));
        assert_eq!(s.left_trigger, Some(key));
        assert_eq!(TriggerKey::from_name(key.name()), Some(key));
    }
}

#[test]
fn the_rendered_file_lists_every_trigger_and_none() {
    // A key you cannot discover is a key nobody uses, and that goes double
    // for "None": nothing else in the file hints that it exists.
    let comment = trigger_name_comment();
    for name in TriggerKey::all()
        .iter()
        .map(|key| key.name())
        .chain([NONE_NAME])
    {
        assert!(
            comment.contains(name),
            "{name} is missing from the config file's list of triggers"
        );
    }
    assert!(render(&Settings::default()).contains(&comment));
}

#[test]
fn the_win_keys_are_the_ones_the_start_menu_uses() {
    assert_eq!(TriggerKey::LeftWin.vk(), 0x5B);
    assert_eq!(TriggerKey::RightWin.vk(), 0x5C);
}

#[test]
fn menu_is_vk_apps_and_not_alt() {
    // Win32 names Alt `VK_MENU`, so the obvious misreading of this variant
    // is 0x12 (or the 0xA4/0xA5 pair). It is the context-menu key.
    assert_eq!(TriggerKey::Menu.vk(), 0x5D);
}

#[test]
fn the_defaults_have_nothing_wrong_with_them() {
    assert_eq!(Settings::default().problems(), Vec::new());
}

#[test]
fn the_same_key_cannot_mean_both_on_and_off() {
    let s = Settings {
        left_trigger: Some(TriggerKey::LeftWin),
        right_trigger: Some(TriggerKey::LeftWin),
        ..Settings::default()
    };
    assert_eq!(
        s.problems().first().copied(),
        Some(Problem::SameTrigger(TriggerKey::LeftWin))
    );
}

#[test]
fn a_zero_threshold_is_rejected() {
    let s = Settings {
        threshold_ms: 0,
        ..Settings::default()
    };
    assert_eq!(s.problems().first().copied(), Some(Problem::ThresholdZero));
}

#[test]
fn a_dummy_that_is_also_a_trigger_key_is_rejected() {
    for key in TriggerKey::all() {
        let s = Settings {
            dummy_vk: key.vk(),
            ..Settings::default()
        };
        assert_eq!(
            s.problems().first().copied(),
            Some(Problem::DummyIsTrigger(key)),
            "dummy {} should be rejected",
            key.name()
        );
    }
    assert_eq!(
        Settings {
            dummy_vk: 0,
            ..Settings::default()
        }
        .problems()
        .first()
        .copied(),
        Some(Problem::DummyZero)
    );
}

#[test]
fn an_unusual_but_workable_value_is_not_a_problem() {
    let s = Settings {
        threshold_ms: 900,
        dummy_vk: 0x60,
        ..Settings::default()
    };
    assert_eq!(s.problems(), Vec::new(), "{s:?}");
}

/// A trigger whose up is injected can be stranded down by a partly landed
/// injection, and the release list is the only thing that recovers it. A
/// trigger whose up is withheld on purpose must not be in that list, or the
/// release itself performs the side effect we suppressed.
#[test]
fn the_release_list_matches_how_each_trigger_is_suppressed() {
    for key in TriggerKey::all() {
        let listed = released_on_failure().contains(&key.vk());
        match suppression_for(key.vk()) {
            Suppression::DummyThenUp => assert!(
                listed,
                "{} has its up injected, so it can stick down and must be released",
                key.name()
            ),
            Suppression::Swallow => assert!(
                !listed,
                "{} has its up withheld on purpose; releasing it would fire the \
                 very side effect the swallow prevents",
                key.name()
            ),
        }
    }
}

#[test]
fn the_rendered_file_is_exactly_the_template() {
    let text = render(&Settings::default());
    assert!(text.starts_with("# altoggle configuration.\n#\n"), "{text}");
    assert!(text.contains(
        "# One of: LeftAlt, RightAlt, LeftCtrl, RightCtrl, LeftShift, RightShift,\n\
         #         LeftWin, RightWin, Menu, None\n"
    ), "{text}");
    assert!(text.contains("\ndummy_vk = 0x07\n\n# Show the IME state on the tray icon"), "{text}");
    assert!(text.ends_with("\nshow_ime_state = false\n"), "{text}");
    assert!(text.contains("left_trigger = \"LeftAlt\"\nright_trigger = \"RightAlt\"\n"), "{text}");
}

#[test]
fn a_wide_dummy_is_written_with_as_many_digits_as_it_needs() {
    let text = render(&Settings { dummy_vk: 0x1234, ..Settings::default() });
    assert!(text.contains("dummy_vk = 0x1234\n"), "{text}");
    assert_eq!(Settings::from_toml(&text).unwrap().dummy_vk, 0x1234);
}

#[test]
fn values_of_the_wrong_kind_or_range_are_refused() {
    assert!(Settings::from_toml("threshold_ms = \"300\"").is_err());
    assert!(Settings::from_toml("threshold_ms = -1").is_err());
    assert!(Settings::from_toml("dummy_vk = 70000").is_err());
    assert!(Settings::from_toml("left_trigger = 3").is_err());
    // The config file is strict about case, unlike the probes' command line.
    assert!(Settings::from_toml("left_trigger = \"leftalt\"").is_err());
    assert!(Settings::from_toml("this is not toml").is_err());
}

#[test]
fn a_broken_file_falls_back_to_the_defaults_and_says_why() {
    match loaded_from_text("C:\\config.toml", "treshold_ms = 1") {
        Loaded::Failed(s, why) => {
            assert_eq!(s, Settings::default());
            assert!(why.starts_with("C:\\config.toml is invalid: "), "{why}");
        }
        other => panic!("{other:?}"),
    }
    let loaded = loaded_from_text("x", "threshold_ms = 250");
    assert_eq!(loaded.settings().threshold_ms, 250);
}

#[test]
fn problem_messages_are_exact() {
    assert_eq!(
        Problem::SameTrigger(TriggerKey::RightShift).message(),
        "RightShift is set for both, so nothing would turn the IME on."
    );
    assert_eq!(Problem::DummyZero.message(), "0x00 is not a virtual key.");
}

fn entry(key: &str, value: TomlValue) -> TomlEntry {
    TomlEntry { key: key.to_string(), value }
}

#[test]
fn parsed_entries_are_applied_on_top_of_the_defaults() {
    let s = Settings::from_entries(&vec![
        entry("dummy_vk", TomlValue::Int(0x7C)),
        entry("right_trigger", TomlValue::Str("None".to_string())),
    ])
    .unwrap();
    assert_eq!(
        s,
        Settings { dummy_vk: 0x7C, right_trigger: None, ..Settings::default() }
    );
    assert_eq!(Settings::from_entries(&vec![]), Ok(Settings::default()));
    // A later key overrides an earlier one; the first refusal wins.
    assert_eq!(
        Settings::from_entries(&vec![
            entry("threshold_ms", TomlValue::Int(-1)),
            entry("zzz", TomlValue::Bool(true)),
        ]),
        Err("invalid value for `threshold_ms`: expected a non-negative integer".to_string())
    );
    assert_eq!(
        Settings::from_entries(&vec![entry("left_trigger", TomlValue::Int(3))]),
        Err("invalid type for `left_trigger`: expected a string".to_string())
    );
    assert_eq!(
        Settings::from_entries(&vec![entry("left_trigger", TomlValue::Str("Space".to_string()))]),
        Err("Space is not a trigger key".to_string())
    );
}

#[test]
fn the_first_bad_key_in_the_file_is_the_one_reported() {
    let err = Settings::from_toml("zzz = 1\naaa = 2\n").unwrap_err();
    assert!(err.contains("`zzz`"), "{err}");
}

#[test]
fn a_file_without_the_ime_display_switch_leaves_it_off() {
    // An older file must not switch polling on behind the user.
    let s = Settings::from_toml("threshold_ms = 300\n").unwrap();
    assert!(!s.show_ime_state);
    assert_eq!(s, Settings { threshold_ms: 300, ..Settings::default() });
    assert!(!Settings::default().show_ime_state);
    let on = Settings::from_toml("show_ime_state = true\n").unwrap();
    assert!(on.show_ime_state);
    assert_eq!(
        Settings::from_toml("show_ime_state = 1\n"),
        Err("invalid type for `show_ime_state`: expected a boolean".to_string())
    );
    let text = render(&Settings { show_ime_state: true, ..Settings::default() });
    assert!(text.contains("\nshow_ime_state = true\n"), "{text}");
    assert!(render(&Settings::default()).ends_with("show_ime_state = false\n"));
}
