//! Which tray artwork to show.
//!
//! Two independent choices, six pictures: the glyph says what the IME is doing
//! (a Latin **a** for off, a hiragana **あ** for on, an asterisk for "cannot
//! tell"), and the theme says what colour the taskbar is, and therefore
//! whether the glyph has to be black or white to be visible on it.
use vstd::prelude::*;

use crate::text::{decimal, push_decimal, push_str, str_eq};

verus! {

/// Which colour the glyph is drawn in, chosen to contrast with the taskbar.
#[derive(Debug, Clone, Copy, PartialEq, Eq, Structural)]
pub enum Theme {
    Black,
    White,
}

/// What the icon says about the IME.
#[derive(Debug, Clone, Copy, PartialEq, Eq, Structural)]
pub enum Glyph {
    Latin,
    Kana,
    Unknown,
}

/// Pick the glyph for what the IME read reported.
///
/// `None` gets its own picture rather than falling back to `Latin`. It means
/// *unreadable*, not *off*: some Electron apps never answer IMM32, and
/// showing **a** there would assert something we did not measure.
pub fn glyph_for(status: Option<bool>) -> (r: Glyph)
    ensures
        r == match status {
            Some(true) => Glyph::Kana,
            Some(false) => Glyph::Latin,
            None => Glyph::Unknown,
        },
{
    match status {
        Some(true) => Glyph::Kana,
        Some(false) => Glyph::Latin,
        None => Glyph::Unknown,
    }
}

/// An unreadable IME never shows as "off", and only a reading of "on"
/// shows as on.
pub proof fn law_unreadable_is_its_own_glyph(status: Option<bool>)
    ensures
        (match status {
            Some(true) => Glyph::Kana,
            Some(false) => Glyph::Latin,
            None => Glyph::Unknown,
        } == Glyph::Latin) <==> status == Some(false),
        (match status {
            Some(true) => Glyph::Kana,
            Some(false) => Glyph::Latin,
            None => Glyph::Unknown,
        } == Glyph::Unknown) <==> status is None,
{
}

/// The glyph colour for the taskbar, from whether `SystemUsesLightTheme`
/// could be read and said light.
///
/// Anything other than a readable light setting is treated as a dark
/// taskbar, which is both the Windows default and what the taskbar looked
/// like before this value existed.
pub fn detect_theme(light_taskbar: Option<bool>) -> (r: Theme)
    ensures
        r == if light_taskbar == Some(true) {
            Theme::Black
        } else {
            Theme::White
        },
{
    match light_taskbar {
        Some(true) => Theme::Black,
        _ => Theme::White,
    }
}

/// What a `SystemUsesLightTheme` read means: `None` when it could not be
/// read, otherwise whether it is non-zero.
pub fn light_from_value(read: Option<u32>) -> (r: Option<bool>)
    ensures
        r == match read {
            Some(v) => Some(v != 0),
            None => None,
        },
{
    match read {
        Some(v) => Some(v != 0),
        None => None,
    }
}

/// Every tray icon is this square.
pub const SIZE: u32 = 32;

/// One decoded PNG frame, as the tray icon needs it.
pub struct PngFrame {
    /// The colour type and bit depth, as `{:?}/{:?}` prints them:
    /// `Rgba/Eight` for straight 8-bit RGBA.
    pub format: String,
    pub width: u32,
    pub height: u32,
    /// The buffer the frame was decoded into, `output_buffer_size` long.
    pub pixels: Vec<u8>,
}

/// The plain value of a decode: the frame's format, width, height and
/// buffer, or why it failed (`None` when the decoder could not size a buffer
/// for it, else the decoder's message).
pub open spec fn frame_view(r: Result<PngFrame, Option<String>>) -> Result<
    (Seq<char>, u32, u32, Seq<u8>),
    Option<Seq<char>>,
> {
    match r {
        Ok(f) => Ok((f.format@, f.width, f.height, f.pixels@)),
        Err(None) => Err(None),
        Err(Some(m)) => Err(Some(m@)),
    }
}

/// What the `png` crate makes of `bytes`: its first frame, or why not.
pub uninterp spec fn png_frame(bytes: Seq<u8>) -> Result<(Seq<char>, u32, u32, Seq<u8>), Option<Seq<char>>>;

/// Decode the first frame of a PNG with `png::Decoder`: `read_info`,
/// a buffer of `output_buffer_size` bytes, then `next_frame`.
///
/// Claimed: the result is `png_frame` of the bytes, a function of the bytes
/// alone. Nothing is claimed about which files decode or what comes out.
#[verifier::external_body]
pub(crate) fn decode_png(bytes: &[u8]) -> (r: Result<PngFrame, Option<String>>)
    ensures
        frame_view(r) == png_frame(bytes@),
{
    let decoder = png::Decoder::new(std::io::Cursor::new(bytes));
    let mut reader = decoder.read_info().map_err(|e| Some(e.to_string()))?;
    let size = reader.output_buffer_size().ok_or(None)?;
    let mut pixels = vec![0u8; size];
    let info = reader.next_frame(&mut pixels).map_err(|e| Some(e.to_string()))?;
    let format = format!("{:?}/{:?}", info.color_type, info.bit_depth);
    Ok(PngFrame { format, width: info.width, height: info.height, pixels })
}

/// The format a tray icon must have.
pub const RGBA8: &'static str = "Rgba/Eight";

/// What a decoded frame gives the tray: its first `SIZE * SIZE * 4` bytes,
/// which are the pixels (the buffer may hold more than the frame reports),
/// when it is `SIZE` square straight 8-bit RGBA; otherwise why not. The
/// files come from `icongen`, which always writes that, so a refusal means
/// the assets are stale.
pub open spec fn rgba_of(frame: (Seq<char>, u32, u32, Seq<u8>)) -> Result<Seq<u8>, Seq<char>> {
    let (format, width, height, pixels) = frame;
    if format != RGBA8@ {
        Err("icon PNG is "@ + format + ", expected Rgba/Eight; regenerate the assets"@)
    } else if width != SIZE || height != SIZE {
        Err("icon PNG is "@ + decimal(width as nat) + "x"@ + decimal(height as nat)
            + ", expected 32x32; regenerate the assets"@)
    } else if pixels.len() <= 4096 {
        Ok(pixels)
    } else {
        Ok(pixels.subrange(0, 4096))
    }
}

/// The plain value of a pixels-or-message result.
pub open spec fn rgba_view(r: Result<Vec<u8>, String>) -> Result<Seq<u8>, Seq<char>> {
    match r {
        Ok(p) => Ok(p@),
        Err(m) => Err(m@),
    }
}

/// The pixels of a decoded frame, or why it is not a tray icon.
pub fn icon_rgba(frame: PngFrame) -> (r: Result<Vec<u8>, String>)
    ensures
        rgba_view(r) == rgba_of((frame.format@, frame.width, frame.height, frame.pixels@)),
{
    let PngFrame { format, width, height, pixels } = frame;
    if !str_eq(format.as_str(), RGBA8) {
        let mut m = String::new();
        push_str(&mut m, "icon PNG is ");
        push_str(&mut m, format.as_str());
        push_str(&mut m, ", expected Rgba/Eight; regenerate the assets");
        return Err(m);
    }
    if width != SIZE || height != SIZE {
        let mut m = String::new();
        push_str(&mut m, "icon PNG is ");
        push_decimal(&mut m, width as u64);
        push_str(&mut m, "x");
        push_decimal(&mut m, height as u64);
        push_str(&mut m, ", expected 32x32; regenerate the assets");
        return Err(m);
    }
    let ghost before = pixels@;
    let mut pixels = pixels;
    pixels.truncate(4096);
    assert(format@ == RGBA8@);
    assert(pixels@ == if before.len() <= 4096 { before } else { before.subrange(0, 4096) });
    Ok(pixels)
}

/// What a PNG gives the tray, from its bytes: the decoder's refusal (with
/// its message, or "implausibly large" when it cannot size a buffer), or
/// what `rgba_of` makes of the frame.
pub open spec fn icon_from_png(bytes: Seq<u8>) -> Result<Seq<u8>, Seq<char>> {
    match png_frame(bytes) {
        Err(None) => Err("the icon PNG is implausibly large"@),
        Err(Some(m)) => Err("bad icon PNG: "@ + m),
        Ok(f) => rgba_of(f),
    }
}

/// Decode one PNG into the straight RGBA pixels of a tray icon.
pub fn icon_pixels(png: &[u8]) -> (r: Result<Vec<u8>, String>)
    ensures
        rgba_view(r) == icon_from_png(png@),
{
    match decode_png(png) {
        Err(None) => {
            let mut m = String::new();
            push_str(&mut m, "the icon PNG is implausibly large");
            Err(m)
        },
        Err(Some(e)) => {
            let mut m = String::new();
            push_str(&mut m, "bad icon PNG: ");
            push_str(&mut m, e.as_str());
            Err(m)
        },
        Ok(frame) => icon_rgba(frame),
    }
}

/// The asset file stem for one icon: `tray-<theme>-<glyph>`.
pub fn asset_name(theme: Theme, glyph: Glyph) -> (r: &'static str)
    ensures
        r@ == (match theme {
            Theme::Black => "tray-black-"@,
            Theme::White => "tray-white-"@,
        }) + match glyph {
            Glyph::Latin => "en"@,
            Glyph::Kana => "ja"@,
            Glyph::Unknown => "undef"@,
        },
{
    let r = match (theme, glyph) {
        (Theme::Black, Glyph::Latin) => "tray-black-en",
        (Theme::Black, Glyph::Kana) => "tray-black-ja",
        (Theme::Black, Glyph::Unknown) => "tray-black-undef",
        (Theme::White, Glyph::Latin) => "tray-white-en",
        (Theme::White, Glyph::Kana) => "tray-white-ja",
        (Theme::White, Glyph::Unknown) => "tray-white-undef",
    };
    proof {
        reveal_strlit("tray-black-en");
        reveal_strlit("tray-black-ja");
        reveal_strlit("tray-black-undef");
        reveal_strlit("tray-white-en");
        reveal_strlit("tray-white-ja");
        reveal_strlit("tray-white-undef");
        reveal_strlit("tray-black-");
        reveal_strlit("tray-white-");
        reveal_strlit("en");
        reveal_strlit("ja");
        reveal_strlit("undef");
        let want = (match theme {
            Theme::Black => "tray-black-"@,
            Theme::White => "tray-white-"@,
        }) + match glyph {
            Glyph::Latin => "en"@,
            Glyph::Kana => "ja"@,
            Glyph::Unknown => "undef"@,
        };
        assert(r@ =~= want);
    }
    r
}

} // verus!
