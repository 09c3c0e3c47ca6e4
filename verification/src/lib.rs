//! Switch the Windows IME with a solo press of a modifier key: the decisions
//! behind it, separated from the Win32 calls that carry them out.
//!
//! - `machine`: the state machine that recognises a solo press
//! - `dispatch`, `lowlevel`, `keys`: feeding it raw hook events
//! - `inject`, `ime`, `hook`: what gets injected when a press fires
//! - `settings`, `toml_doc`: the settings and their config file
//! - `probe_args`: the measurement probes' command line
//! - `dialog`, `icons`, `tray`, `session`: the decisions behind the UI
//! - `keylog`, `icongen`: the developer tools' pure parts
use vstd::prelude::*;

pub mod autostart;
pub mod dialog;
pub mod dispatch;
pub mod hook;
pub mod icongen;
pub mod icons;
pub mod ime;
pub mod inject;
pub mod keylog;
pub mod keys;
pub mod lowlevel;
pub mod machine;
pub mod numbers;
pub mod probe_args;
pub mod registry;
pub mod session;
pub mod settings;
pub mod startup;
pub mod text;
pub mod toml_doc;
pub mod tray;

verus! {

/// The UTF-16 code units of one character.
pub open spec fn utf16_units(c: char) -> Seq<u16> {
    let v = c as u32;
    if v < 0x10000 {
        seq![v as u16]
    } else {
        seq![(0xD800 + (v - 0x10000) / 0x400) as u16, (0xDC00 + (v - 0x10000) % 0x400) as u16]
    }
}

/// The UTF-16 encoding of a string.
pub open spec fn utf16(s: Seq<char>) -> Seq<u16>
    decreases s.len(),
{
    if s.len() == 0 {
        Seq::empty()
    } else {
        utf16(s.drop_last()) + utf16_units(s.last())
    }
}

/// Convert to the NUL-terminated UTF-16 the wide Win32 entry points expect.
pub fn wide(s: &str) -> (r: Vec<u16>)
    ensures
        r@ == utf16(s@).push(0),
{
    let cs = text::chars_of(s);
    let mut out: Vec<u16> = Vec::new();
    let mut i: usize = 0;
    while i < cs.len()
        invariant
            cs@ == s@,
            i <= cs.len(),
            out@ == utf16(s@.subrange(0, i as int)),
        decreases cs.len() - i,
    {
        let ghost before = out@;
        let v = cs[i] as u32;
        if v < 0x10000 {
            out.push(v as u16);
        } else {
            let u = v - 0x10000;
            out.push((0xD800 + u / 0x400) as u16);
            out.push((0xDC00 + u % 0x400) as u16);
        }
        proof {
            let next = s@.subrange(0, i + 1);
            assert(next.drop_last() =~= s@.subrange(0, i as int));
            assert(next.last() == cs@[i as int]);
            assert(out@ =~= before + utf16_units(cs@[i as int]));
        }
        i += 1;
    }
    assert(s@.subrange(0, s@.len() as int) =~= s@);
    out.push(0);
    out
}

} // verus!
