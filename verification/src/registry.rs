//! The bytes of a `REG_SZ` value, both ways.
//!
//! Opening keys and moving bytes in and out of the registry is Win32. What a
//! string becomes on the way in, and what bytes mean on the way out, is here,
//! and what is read back of a write is the string that was written.
use vstd::prelude::*;

use crate::{utf16, utf16_units, wide};

verus! {

/// The little-endian bytes of a sequence of UTF-16 code units.
pub open spec fn le_bytes(units: Seq<u16>) -> Seq<u8>
    decreases units.len(),
{
    if units.len() == 0 {
        Seq::empty()
    } else {
        le_bytes(units.drop_last()) + seq![
            (units.last() % 256) as u8,
            (units.last() / 256) as u8,
        ]
    }
}

/// The code units that little-endian byte pairs spell; a trailing odd byte
/// is ignored, as `chunks_exact(2)` ignores it.
pub open spec fn le_units(bytes: Seq<u8>) -> Seq<u16>
    decreases bytes.len(),
{
    if bytes.len() < 2 {
        Seq::empty()
    } else {
        seq![(bytes[0] + 256 * bytes[1]) as u16] + le_units(bytes.subrange(2, bytes.len() as int))
    }
}

/// The characters `String::from_utf16_lossy` makes of `units`.
pub uninterp spec fn utf16_lossy(units: Seq<u16>) -> Seq<char>;

/// `String::from_utf16_lossy`.
///
/// Claimed, as the standard library documents it: the result is a function
/// of the units (named `utf16_lossy`), and units that are the UTF-16
/// encoding of some text decode to exactly that text. What invalid units
/// become (the replacement character) is not stated.
#[verifier::external_body]
pub(crate) fn from_utf16_lossy(units: &[u16]) -> (r: String)
    ensures
        r@ == utf16_lossy(units@),
        forall|s: Seq<char>| #[trigger] utf16(s) == units@ ==> r@ == s,
{
    String::from_utf16_lossy(units)
}

/// The bytes `RegSetValueExW` is handed for a `REG_SZ` of `value`: its
/// UTF-16 encoding with the terminating NUL, each unit little-endian.
pub fn reg_sz_bytes(value: &str) -> (r: Vec<u8>)
    ensures
        r@ == le_bytes(utf16(value@).push(0)),
{
    let units = wide(value);
    let mut out: Vec<u8> = Vec::new();
    let mut i: usize = 0;
    while i < units.len()
        invariant
            units@ == utf16(value@).push(0),
            i <= units.len(),
            out@ == le_bytes(units@.subrange(0, i as int)),
        decreases units.len() - i,
    {
        let u = units[i];
        out.push((u % 256) as u8);
        out.push((u / 256) as u8);
        proof {
            let next = units@.subrange(0, i + 1);
            assert(next.drop_last() =~= units@.subrange(0, i as int));
            assert(next.last() == u);
        }
        i += 1;
    }
    assert(units@.subrange(0, units@.len() as int) =~= units@);
    out
}

/// The code units of a value's bytes, read as little-endian pairs.
pub fn units_from_le(bytes: &[u8]) -> (r: Vec<u16>)
    ensures
        r@ == le_units(bytes@),
{
    let mut out: Vec<u16> = Vec::new();
    let mut i: usize = 0;
    assert(bytes@.subrange(0, bytes@.len() as int) =~= bytes@);
    while i + 1 < bytes.len()
        invariant
            i % 2 == 0,
            i <= bytes.len(),
            out@ + le_units(bytes@.subrange(i as int, bytes@.len() as int)) == le_units(bytes@),
        decreases bytes.len() - i,
    {
        let ghost rest = bytes@.subrange(i as int, bytes@.len() as int);
        let u = (bytes[i] as u16) + 256 * (bytes[i + 1] as u16);
        out.push(u);
        proof {
            assert(rest.subrange(2, rest.len() as int) =~= bytes@.subrange(i + 2, bytes@.len() as int));
            assert(le_units(rest) == seq![(rest[0] + 256 * rest[1]) as u16] + le_units(
                rest.subrange(2, rest.len() as int),
            ));
            assert(out@ + le_units(bytes@.subrange(i + 2, bytes@.len() as int)) =~= (out@.drop_last()
                + le_units(rest)));
        }
        i += 2;
    }
    let ghost rest = bytes@.subrange(i as int, bytes@.len() as int);
    assert(le_units(rest) == Seq::<u16>::empty());
    assert(out@ + le_units(rest) =~= out@);
    out
}

/// `s` with every trailing NUL removed, as `trim_end_matches('\0')` does.
pub open spec fn trim_nuls(s: Seq<char>) -> Seq<char>
    decreases s.len(),
{
    if s.len() > 0 && s.last() == '\0' {
        trim_nuls(s.drop_last())
    } else {
        s
    }
}

/// The string a `REG_SZ` value's bytes hold: decoded as UTF-16, with the
/// terminating NUL (and any more of them) removed.
///
/// The value's type is not checked, so a `REG_EXPAND_SZ` comes back with its
/// `%VARS%` still in it rather than being refused.
pub fn string_from_reg_bytes(bytes: &[u8]) -> (r: String)
    ensures
        r@ == trim_nuls(utf16_lossy(le_units(bytes@))),
        forall|s: Seq<char>| #[trigger] utf16(s) == le_units(bytes@) ==> r@ == trim_nuls(s),
{
    let units = units_from_le(bytes);
    let text = from_utf16_lossy(units.as_slice());
    let cs = crate::text::chars_of(text.as_str());
    let mut end = cs.len();
    assert(text@.subrange(0, text@.len() as int) =~= text@);
    while end > 0 && cs[end - 1] == '\0'
        invariant
            cs@ == text@,
            end <= cs.len(),
            trim_nuls(text@) == trim_nuls(text@.subrange(0, end as int)),
        decreases end,
    {
        let ghost prefix = text@.subrange(0, end as int);
        assert(prefix.drop_last() =~= text@.subrange(0, end - 1));
        end -= 1;
    }
    let mut out = String::new();
    let mut i: usize = 0;
    while i < end
        invariant
            cs@ == text@,
            end <= cs.len(),
            i <= end,
            out@ == text@.subrange(0, i as int),
        decreases end - i,
    {
        crate::text::push_char(&mut out, cs[i]);
        i += 1;
        assert(out@ =~= text@.subrange(0, i as int));
    }
    proof {
        assert(text@.subrange(0, text@.len() as int) =~= text@);
    }
    out
}

proof fn lemma_le_round_trip(units: Seq<u16>)
    ensures
        le_units(le_bytes(units)) == units,
    decreases units.len(),
{
    if units.len() > 0 {
        let init = units.drop_last();
        let u = units.last();
        lemma_le_round_trip(init);
        lemma_le_bytes_even(init);
        lemma_le_units_append(le_bytes(init), seq![(u % 256) as u8, (u / 256) as u8]);
        let pair = seq![(u % 256) as u8, (u / 256) as u8];
        assert(pair.subrange(2, 2) =~= Seq::<u8>::empty());
        assert(le_units(Seq::<u8>::empty()) == Seq::<u16>::empty());
        assert(((u % 256) as u8) + 256 * ((u / 256) as u8) == u);
        assert(le_units(pair) =~= seq![u]);
        assert(units =~= init.push(u));
    }
}

proof fn lemma_le_units_append(a: Seq<u8>, b: Seq<u8>)
    requires
        a.len() % 2 == 0,
    ensures
        le_units(a + b) == le_units(a) + le_units(b),
    decreases a.len(),
{
    if a.len() >= 2 {
        let rest = a.subrange(2, a.len() as int);
        lemma_le_units_append(rest, b);
        assert((a + b).subrange(2, (a + b).len() as int) =~= rest + b);
        assert(le_units(a + b) == seq![((a + b)[0] + 256 * (a + b)[1]) as u16] + le_units(rest + b));
        assert(le_units(a + b) =~= le_units(a) + le_units(b));
    } else {
        assert(a.len() == 0);
        assert(a + b =~= b);
        assert(le_units(a) =~= Seq::<u16>::empty());
    }
}

proof fn lemma_le_bytes_even(units: Seq<u16>)
    ensures
        le_bytes(units).len() == 2 * units.len(),
    decreases units.len(),
{
    if units.len() > 0 {
        lemma_le_bytes_even(units.drop_last());
    }
}

/// What is read back of a written string is that string.
///
/// The bytes a `REG_SZ` of `value` is written as are the UTF-16 encoding of
/// `value` followed by a NUL, and trimming that NUL gives `value` back, as
/// long as `value` does not itself end in NUL characters (which a read trims
/// away). With `string_from_reg_bytes`'s contract, reading those bytes gives
/// `value`.
pub proof fn law_registry_string_round_trip(value: Seq<char>)
    requires
        value.len() == 0 || value.last() != '\0',
    ensures
        le_units(le_bytes(utf16(value).push(0))) == utf16(value.push('\0')),
        trim_nuls(value.push('\0')) == value,
{
    let units = utf16(value).push(0);
    lemma_le_round_trip(units);
    let with_nul = value.push('\0');
    assert(with_nul.drop_last() =~= value);
    assert(utf16_units('\0') =~= seq![0u16]);
    assert(utf16(with_nul) =~= units);
    assert(trim_nuls(value) == value);
    assert(trim_nuls(with_nul) == trim_nuls(with_nul.drop_last()));
}

} // verus!
