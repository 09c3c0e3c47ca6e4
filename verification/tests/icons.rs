use altoggle::icons::{
    asset_name, detect_theme, glyph_for, icon_pixels, icon_rgba, light_from_value, Glyph, PngFrame, Theme,
};

#[test]
fn unreadable_is_its_own_glyph() {
    assert_eq!(glyph_for(Some(true)), Glyph::Kana);
    assert_eq!(glyph_for(Some(false)), Glyph::Latin);
    // The tempting simplification is to fold this into Latin. It would make
    // every window that stays silent claim the IME is off.
    assert_eq!(glyph_for(None), Glyph::Unknown);
}

#[test]
fn only_a_readable_light_setting_means_a_light_taskbar() {
    assert_eq!(detect_theme(light_from_value(Some(1))), Theme::Black);
    assert_eq!(detect_theme(light_from_value(Some(0))), Theme::White);
    assert_eq!(detect_theme(light_from_value(None)), Theme::White);
}

#[test]
fn every_picture_has_its_own_asset() {
    assert_eq!(asset_name(Theme::Black, Glyph::Latin), "tray-black-en");
    assert_eq!(asset_name(Theme::White, Glyph::Kana), "tray-white-ja");
    assert_eq!(asset_name(Theme::White, Glyph::Unknown), "tray-white-undef");
}

/// A PNG of `width` x `height` pixels of `color`, each byte its index.
fn png_of(width: u32, height: u32, color: png::ColorType, channels: usize) -> (Vec<u8>, Vec<u8>) {
    let data: Vec<u8> = (0..(width as usize * height as usize * channels)).map(|i| (i % 251) as u8).collect();
    let mut out = Vec::new();
    {
        let mut encoder = png::Encoder::new(&mut out, width, height);
        encoder.set_color(color);
        encoder.set_depth(png::BitDepth::Eight);
        let mut writer = encoder.write_header().unwrap();
        writer.write_image_data(&data).unwrap();
        writer.finish().unwrap();
    }
    (out, data)
}

#[test]
fn a_32x32_rgba8_png_decodes_to_its_pixels() {
    let (png, data) = png_of(32, 32, png::ColorType::Rgba, 4);
    let pixels = icon_pixels(&png).unwrap();
    assert_eq!(pixels.len(), 4096);
    assert_eq!(pixels, data);
}

#[test]
fn a_png_of_another_size_or_format_is_refused() {
    let (png, _) = png_of(16, 16, png::ColorType::Rgba, 4);
    assert_eq!(
        icon_pixels(&png),
        Err("icon PNG is 16x16, expected 32x32; regenerate the assets".to_string())
    );
    let (png, _) = png_of(32, 32, png::ColorType::Rgb, 3);
    assert_eq!(
        icon_pixels(&png),
        Err("icon PNG is Rgb/Eight, expected Rgba/Eight; regenerate the assets".to_string())
    );
}

#[test]
fn bytes_that_are_no_png_are_refused_with_the_decoders_reason() {
    let r = icon_pixels(b"not a png at all");
    let m = r.unwrap_err();
    assert!(m.starts_with("bad icon PNG: "), "{m}");
    assert!(m.len() > "bad icon PNG: ".len());
}

#[test]
fn only_a_32x32_rgba8_frame_is_an_icon() {
    let frame = |format: &str, width: u32, height: u32, len: usize| PngFrame {
        format: format.to_string(),
        width,
        height,
        pixels: vec![7u8; len],
    };
    // The buffer can be longer than the frame: it is cut to the pixels.
    assert_eq!(icon_rgba(frame("Rgba/Eight", 32, 32, 5000)), Ok(vec![7u8; 4096]));
    assert_eq!(icon_rgba(frame("Rgba/Eight", 32, 32, 4096)), Ok(vec![7u8; 4096]));
    assert_eq!(
        icon_rgba(frame("Rgba/Sixteen", 32, 32, 8192)),
        Err("icon PNG is Rgba/Sixteen, expected Rgba/Eight; regenerate the assets".to_string())
    );
    assert_eq!(
        icon_rgba(frame("Rgba/Eight", 16, 32, 2048)),
        Err("icon PNG is 16x32, expected 32x32; regenerate the assets".to_string())
    );
}
