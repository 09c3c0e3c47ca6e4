//! What the raw-event logger prints: names for the virtual keys, messages
//! and flags that matter to solo-press detection.
//!
//! Hooking and printing are Win32 and console work; turning the numbers into
//! words is here.
use vstd::prelude::*;

use crate::numbers::{parse_u64, unsigned_value};
use crate::text::{hex4, joined, push_hex4, push_str};

verus! {

/// `WM_KEYDOWN`
pub const WM_KEYDOWN: u32 = 0x0100;

/// `WM_KEYUP`
pub const WM_KEYUP: u32 = 0x0101;

/// `WM_SYSKEYDOWN`
pub const WM_SYSKEYDOWN: u32 = 0x0104;

/// `WM_SYSKEYUP`
pub const WM_SYSKEYUP: u32 = 0x0105;

/// `WM_LBUTTONDOWN`
pub const WM_LBUTTONDOWN: u32 = 0x0201;

/// `WM_LBUTTONUP`
pub const WM_LBUTTONUP: u32 = 0x0202;

/// `WM_RBUTTONDOWN`
pub const WM_RBUTTONDOWN: u32 = 0x0204;

/// `WM_RBUTTONUP`
pub const WM_RBUTTONUP: u32 = 0x0205;

/// `WM_MBUTTONDOWN`
pub const WM_MBUTTONDOWN: u32 = 0x0207;

/// `WM_MBUTTONUP`
pub const WM_MBUTTONUP: u32 = 0x0208;

/// `WM_XBUTTONDOWN`
pub const WM_XBUTTONDOWN: u32 = 0x020B;

/// `WM_XBUTTONUP`
pub const WM_XBUTTONUP: u32 = 0x020C;

/// `WM_MOUSEWHEEL`
pub const WM_MOUSEWHEEL: u32 = 0x020A;

/// `WM_MOUSEHWHEEL`
pub const WM_MOUSEHWHEEL: u32 = 0x020E;

/// `LLKHF_EXTENDED`
pub const LLKHF_EXTENDED: u32 = 0x01;

/// `LLKHF_LOWER_IL_INJECTED`
pub const LLKHF_LOWER_IL_INJECTED: u32 = 0x02;

/// `LLKHF_INJECTED`
pub const LLKHF_INJECTED: u32 = 0x10;

/// `LLKHF_ALTDOWN`
pub const LLKHF_ALTDOWN: u32 = 0x20;

/// The name of a virtual key that matters to solo-press detection; empty
/// for the rest, which hex is enough for.
pub open spec fn vk_label(vk: u32) -> Seq<char> {
    if 0x7C <= vk <= 0x87 {
        "VK_F13..F24"@
    } else {
        vk_label_single(vk)
    }
}

/// The name of a virtual key outside the F13-F24 block.
pub open spec fn vk_label_single(vk: u32) -> Seq<char> {
    match vk {
        0x08 => "VK_BACK"@,
        0x09 => "VK_TAB"@,
        0x0D => "VK_RETURN"@,
        0x10 => "VK_SHIFT"@,
        0x11 => "VK_CONTROL"@,
        0x12 => "VK_MENU"@,
        0x13 => "VK_PAUSE"@,
        0x14 => "VK_CAPITAL"@,
        0x15 => "VK_KANA/HANGUL"@,
        0x16 => "VK_IME_ON"@,
        0x17 => "VK_JUNJA"@,
        0x19 => "VK_KANJI"@,
        0x1A => "VK_IME_OFF"@,
        0x1B => "VK_ESCAPE"@,
        0x1C => "VK_CONVERT"@,
        0x1D => "VK_NONCONVERT"@,
        0x20 => "VK_SPACE"@,
        0x5B => "VK_LWIN"@,
        0x5C => "VK_RWIN"@,
        0x5D => "VK_APPS"@,
        0xA0 => "VK_LSHIFT"@,
        0xA1 => "VK_RSHIFT"@,
        0xA2 => "VK_LCONTROL"@,
        0xA3 => "VK_RCONTROL"@,
        0xA4 => "VK_LMENU"@,
        0xA5 => "VK_RMENU"@,
        0xF0 => "VK_OEM_ATTN"@,
        0xF3 => "VK_OEM_AUTO"@,
        0xF4 => "VK_OEM_ENLW"@,
        _ => ""@,
    }
}

/// Names only the virtual keys that matter to solo-press detection.
pub fn vk_name(vk: u32) -> (r: &'static str)
    ensures
        r@ == vk_label(vk),
{
    if 0x7C <= vk && vk <= 0x87 {
        return "VK_F13..F24";
    }
    match vk {
        0x08 => "VK_BACK",
        0x09 => "VK_TAB",
        0x0D => "VK_RETURN",
        0x10 => "VK_SHIFT",
        0x11 => "VK_CONTROL",
        0x12 => "VK_MENU",
        0x13 => "VK_PAUSE",
        0x14 => "VK_CAPITAL",
        0x15 => "VK_KANA/HANGUL",
        0x16 => "VK_IME_ON",
        0x17 => "VK_JUNJA",
        0x19 => "VK_KANJI",
        0x1A => "VK_IME_OFF",
        0x1B => "VK_ESCAPE",
        0x1C => "VK_CONVERT",
        0x1D => "VK_NONCONVERT",
        0x20 => "VK_SPACE",
        0x5B => "VK_LWIN",
        0x5C => "VK_RWIN",
        0x5D => "VK_APPS",
        0xA0 => "VK_LSHIFT",
        0xA1 => "VK_RSHIFT",
        0xA2 => "VK_LCONTROL",
        0xA3 => "VK_RCONTROL",
        0xA4 => "VK_LMENU",
        0xA5 => "VK_RMENU",
        0xF0 => "VK_OEM_ATTN",
        0xF3 => "VK_OEM_AUTO",
        0xF4 => "VK_OEM_ENLW",
        _ => "",
    }
}

/// Which kind of key message this is: `KEY`, `SYS`, or `?`.
pub fn msg_kind(msg: u32) -> (r: &'static str)
    ensures
        r@ == if msg == WM_KEYDOWN || msg == WM_KEYUP {
            "KEY"@
        } else if msg == WM_SYSKEYDOWN || msg == WM_SYSKEYUP {
            "SYS"@
        } else {
            "?"@
        },
{
    if msg == WM_KEYDOWN || msg == WM_KEYUP {
        "KEY"
    } else if msg == WM_SYSKEYDOWN || msg == WM_SYSKEYUP {
        "SYS"
    } else {
        "?"
    }
}

/// The name of a mouse message.
pub open spec fn mouse_label(msg: u32) -> Seq<char> {
    match msg {
        WM_LBUTTONDOWN => "LBUTTONDOWN"@,
        WM_LBUTTONUP => "LBUTTONUP"@,
        WM_RBUTTONDOWN => "RBUTTONDOWN"@,
        WM_RBUTTONUP => "RBUTTONUP"@,
        WM_MBUTTONDOWN => "MBUTTONDOWN"@,
        WM_MBUTTONUP => "MBUTTONUP"@,
        WM_XBUTTONDOWN => "XBUTTONDOWN"@,
        WM_XBUTTONUP => "XBUTTONUP"@,
        WM_MOUSEWHEEL => "MOUSEWHEEL"@,
        WM_MOUSEHWHEEL => "MOUSEHWHEEL"@,
        _ => "MOUSE?"@,
    }
}

/// The name of a mouse message.
pub fn mouse_name(msg: u32) -> (r: &'static str)
    ensures
        r@ == mouse_label(msg),
{
    match msg {
        WM_LBUTTONDOWN => "LBUTTONDOWN",
        WM_LBUTTONUP => "LBUTTONUP",
        WM_RBUTTONDOWN => "RBUTTONDOWN",
        WM_RBUTTONUP => "RBUTTONUP",
        WM_MBUTTONDOWN => "MBUTTONDOWN",
        WM_MBUTTONUP => "MBUTTONUP",
        WM_XBUTTONDOWN => "XBUTTONDOWN",
        WM_XBUTTONUP => "XBUTTONUP",
        WM_MOUSEWHEEL => "MOUSEWHEEL",
        WM_MOUSEHWHEEL => "MOUSEHWHEEL",
        _ => "MOUSE?",
    }
}

/// Whether the logger records this mouse message: buttons and the wheel.
/// Moves are dropped; only buttons and the wheel matter for solo-press
/// detection.
pub fn is_interesting_mouse(msg: u32) -> (r: bool)
    ensures
        r == (msg == WM_LBUTTONDOWN || msg == WM_LBUTTONUP || msg == WM_RBUTTONDOWN || msg == WM_RBUTTONUP || msg == WM_MBUTTONDOWN || msg == WM_MBUTTONUP || msg == WM_XBUTTONDOWN || msg == WM_XBUTTONUP || msg == WM_MOUSEWHEEL || msg == WM_MOUSEHWHEEL),
{
    msg == WM_LBUTTONDOWN || msg == WM_LBUTTONUP || msg == WM_RBUTTONDOWN || msg == WM_RBUTTONUP || msg == WM_MBUTTONDOWN || msg == WM_MBUTTONUP || msg == WM_XBUTTONDOWN || msg == WM_XBUTTONUP || msg == WM_MOUSEWHEEL || msg == WM_MOUSEHWHEEL
}

/// The words for the low-level flags that are set, in this order:
/// `EXT`, `INJ`, `LOWIL`, `ALTDN`.
pub open spec fn flag_words(flags: u32) -> Seq<Seq<char>> {
    (if flags & LLKHF_EXTENDED != 0 {
        seq!["EXT"@]
    } else {
        Seq::empty()
    }) + (if flags & LLKHF_INJECTED != 0 {
        seq!["INJ"@]
    } else {
        Seq::empty()
    }) + (if flags & LLKHF_LOWER_IL_INJECTED != 0 {
        seq!["LOWIL"@]
    } else {
        Seq::empty()
    }) + (if flags & LLKHF_ALTDOWN != 0 {
        seq!["ALTDN"@]
    } else {
        Seq::empty()
    })
}

/// The flags that are set, separated by spaces, or `-` when none is.
pub fn flag_names(flags: u32) -> (r: String)
    ensures
        r@ == if flag_words(flags).len() == 0 {
            "-"@
        } else {
            joined(flag_words(flags), " "@)
        },
{
    let mut words: Vec<&str> = Vec::new();
    if flags & LLKHF_EXTENDED != 0 {
        words.push("EXT");
    }
    if flags & LLKHF_INJECTED != 0 {
        words.push("INJ");
    }
    if flags & LLKHF_LOWER_IL_INJECTED != 0 {
        words.push("LOWIL");
    }
    if flags & LLKHF_ALTDOWN != 0 {
        words.push("ALTDN");
    }
    assert(crate::text::strs_view(words@) =~= flag_words(flags));
    if words.len() == 0 {
        let mut s = String::new();
        push_str(&mut s, "-");
        return s;
    }
    crate::text::join(&words, " ")
}

/// Seconds before the logger quits on its own when no argument says.
pub const DEFAULT_SECS: u64 = 120;

/// How long the logger runs: the first argument as a number of seconds, or
/// `DEFAULT_SECS` when it is absent or not a number. 0 disables the exit.
pub fn auto_exit_secs(first_arg: Option<&str>) -> (r: u64)
    ensures
        r == match first_arg {
            Some(a) => match unsigned_value(a@, 10, u64::MAX as int) {
                Some(n) => n as u64,
                None => DEFAULT_SECS,
            },
            None => DEFAULT_SECS,
        },
{
    match first_arg {
        Some(a) => match parse_u64(a) {
            Ok(n) => n,
            Err(_) => DEFAULT_SECS,
        },
        None => DEFAULT_SECS,
    }
}

/// Whether a key event is auto-repeat, and which key is then the last one
/// seen going down. Two downs in a row for the same key is auto-repeat; an
/// up in between means a separate press.
pub open spec fn repeat_of(last_down: Option<u32>, vk: u32, up: bool) -> (bool, Option<u32>) {
    (
        !up && last_down == Some(vk),
        if up {
            None
        } else {
            Some(vk)
        },
    )
}

/// One step of the auto-repeat tracking (see `repeat_of`).
pub fn repeat_step(last_down: Option<u32>, vk: u32, up: bool) -> (r: (bool, Option<u32>))
    ensures
        r == repeat_of(last_down, vk, up),
{
    let repeat = !up && last_down == Some(vk);
    (repeat, if up {
        None
    } else {
        Some(vk)
    })
}

/// A key held down repeats from its second down on, whatever came before;
/// an up in between makes the next down a fresh press, and a down of another
/// key is never a repeat of this one.
pub proof fn law_repeat_is_a_second_down_in_a_row(last_down: Option<u32>, vk: u32, other: u32)
    requires
        other != vk,
    ensures
        repeat_of(repeat_of(last_down, vk, false).1, vk, false).0,
        !repeat_of(repeat_of(last_down, vk, true).1, vk, false).0,
        !repeat_of(repeat_of(last_down, vk, false).1, other, false).0,
{
}

/// What the logger shows of a mouse event's data: its high word, which is
/// the wheel delta or the X button.
pub fn mouse_data_text(data: u32) -> (r: String)
    ensures
        r@ == "hi=0x"@ + hex4(((data / 65536) % 65536) as nat),
{
    let mut s = String::new();
    push_str(&mut s, "hi=0x");
    assert(((data >> 16) & 0xFFFF) == (data / 65536) % 65536) by (bit_vector);
    let hi: u32 = (data >> 16) & 0xFFFF;
    push_hex4(&mut s, hi as u64);
    s
}

} // verus!
