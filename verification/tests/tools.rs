use altoggle::icongen::{
    app_icon_sizes, downscale_plan, entry_is_png, tray_source_name, tray_target_name, tray_variants, Filter,
};
use altoggle::keylog::{
    auto_exit_secs, flag_names, is_interesting_mouse, mouse_data_text, mouse_name, msg_kind, repeat_step,
    vk_name,
};
use altoggle::text::{eq_ignore_ascii_case, join, push_decimal, push_hex2, push_hex4};
use altoggle::wide;

#[test]
fn wide_strings_end_in_a_nul_and_encode_every_plane() {
    assert_eq!(wide("ab"), vec![0x61, 0x62, 0]);
    assert_eq!(wide(""), vec![0]);
    assert_eq!(wide("あ"), vec![0x3042, 0]);
    assert_eq!(wide("😀"), vec![0xD83D, 0xDE00, 0]);
    let s = "Windows.UI.Core.CoreWindow";
    let mut expected: Vec<u16> = s.encode_utf16().collect();
    expected.push(0);
    assert_eq!(wide(s), expected);
}

#[test]
fn numbers_are_written_like_format_does() {
    for n in [0u64, 7, 10, 400, 12345, u64::MAX] {
        let mut s = String::new();
        push_decimal(&mut s, n);
        assert_eq!(s, format!("{n}"));
    }
    for n in [0u64, 7, 0x82, 0xFF, 0x100, 0xFFFF] {
        let mut s = String::new();
        push_hex2(&mut s, n);
        assert_eq!(s, format!("{n:02X}"));
    }
}

#[test]
fn case_folding_touches_ascii_letters_only() {
    assert!(eq_ignore_ascii_case("LeftWin", "leftWIN"));
    assert!(!eq_ignore_ascii_case("LeftWin", "LeftWi"));
    assert!(!eq_ignore_ascii_case("é", "É"));
    assert_eq!(join(&vec!["a", "b", "c"], ", "), "a, b, c");
    assert_eq!(join(&vec![], ", "), "");
}

#[test]
fn the_logger_names_what_matters() {
    assert_eq!(vk_name(0xA4), "VK_LMENU");
    assert_eq!(vk_name(0x7C), "VK_F13..F24");
    assert_eq!(vk_name(0x87), "VK_F13..F24");
    assert_eq!(vk_name(0x41), "");
    assert_eq!(msg_kind(0x0104), "SYS");
    assert_eq!(msg_kind(0x0100), "KEY");
    assert_eq!(msg_kind(0x0200), "?");
    assert_eq!(mouse_name(0x020B), "XBUTTONDOWN");
    assert!(is_interesting_mouse(0x020A));
    assert!(!is_interesting_mouse(0x0200));
    assert_eq!(flag_names(0), "-");
    assert_eq!(flag_names(0x01 | 0x10 | 0x20), "EXT INJ ALTDN");
    assert_eq!(flag_names(0x02), "LOWIL");
}

#[test]
fn the_icon_plan_halves_then_finishes_bicubic() {
    assert_eq!(
        downscale_plan(1254, 256),
        vec![(627, Filter::Bilinear), (313, Filter::Bilinear), (256, Filter::Bicubic)]
    );
    assert_eq!(downscale_plan(64, 16), vec![(32, Filter::Bilinear), (16, Filter::Bilinear)]);
    assert_eq!(downscale_plan(16, 16), vec![]);
    assert_eq!(app_icon_sizes(), [16, 20, 24, 32, 40, 48, 64, 128, 256]);
    assert!(entry_is_png(256));
    assert!(!entry_is_png(128));
    assert_eq!(tray_variants().len(), 6);
    assert_eq!(tray_source_name("black-en"), "altoggle-trayicon-black-en.svg");
    assert_eq!(tray_target_name("white-undef"), "tray-white-undef.png");
}

#[test]
fn the_logger_runs_for_the_seconds_it_is_given() {
    assert_eq!(auto_exit_secs(None), 120);
    assert_eq!(auto_exit_secs(Some("30")), 30);
    assert_eq!(auto_exit_secs(Some("0")), 0);
    assert_eq!(auto_exit_secs(Some("+7")), 7);
    assert_eq!(auto_exit_secs(Some("ten")), 120);
    assert_eq!(auto_exit_secs(Some("-5")), 120);
    assert_eq!(auto_exit_secs(Some("")), 120);
}

#[test]
fn a_second_down_in_a_row_is_a_repeat() {
    let (first, last) = repeat_step(None, 0xA4, false);
    assert!(!first);
    assert_eq!(last, Some(0xA4));
    let (second, last) = repeat_step(last, 0xA4, false);
    assert!(second);
    let (up, last) = repeat_step(last, 0xA4, true);
    assert!(!up);
    assert_eq!(last, None);
    assert_eq!(repeat_step(last, 0xA4, false), (false, Some(0xA4)));
    assert_eq!(repeat_step(Some(0xA4), 0xA5, false), (false, Some(0xA5)));
}

#[test]
fn mouse_data_shows_its_high_word_in_four_hex_digits() {
    assert_eq!(mouse_data_text(0x0078_0000), "hi=0x0078");
    assert_eq!(mouse_data_text(0xFF88_0000), "hi=0xFF88");
    assert_eq!(mouse_data_text(0x0001_FFFF), "hi=0x0001");
    assert_eq!(mouse_data_text(0), "hi=0x0000");
    let mut s = String::new();
    push_hex4(&mut s, 0xABC);
    assert_eq!(s, "0ABC");
}
