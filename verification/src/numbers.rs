//! Reading numbers typed on a command line.
use vstd::prelude::*;

verus! {

/// Whether `c` is an ASCII decimal digit.
pub open spec fn is_decimal_digit(c: char) -> bool {
    '0' <= c <= '9'
}

/// The value of an ASCII hex digit of either case, if `c` is one.
pub open spec fn hex_digit_value(c: char) -> Option<int> {
    if '0' <= c <= '9' {
        Some(c as int - '0' as int)
    } else if 'a' <= c <= 'f' {
        Some(c as int - 'a' as int + 10)
    } else if 'A' <= c <= 'F' {
        Some(c as int - 'A' as int + 10)
    } else {
        None
    }
}

/// The value of a string of digits in `radix` (10 or 16); `None` when it
/// holds anything but digits of that radix.
pub open spec fn digits_value(s: Seq<char>, radix: int) -> Option<int>
    decreases s.len(),
{
    if s.len() == 0 {
        Some(0)
    } else {
        let last = s.last();
        let d = if radix == 10 {
            if is_decimal_digit(last) {
                Some(last as int - '0' as int)
            } else {
                None
            }
        } else {
            hex_digit_value(last)
        };
        match (digits_value(s.drop_last(), radix), d) {
            (Some(v), Some(d)) => Some(v * radix + d),
            _ => None,
        }
    }
}

/// The unsigned number `s` spells in `radix`, as `from_str_radix` reads it:
/// an optional `+`, then at least one digit, nothing else, and no more than
/// `max`.
pub open spec fn unsigned_value(s: Seq<char>, radix: int, max: int) -> Option<int> {
    let body = if s.len() > 0 && s[0] == '+' {
        s.drop_first()
    } else {
        s
    };
    if body.len() == 0 {
        None
    } else {
        match digits_value(body, radix) {
            Some(v) => if v <= max {
                Some(v)
            } else {
                None
            },
            None => None,
        }
    }
}

/// What `str::parse::<u64>` says about `s` when it refuses it.
pub uninterp spec fn u64_error_text(s: Seq<char>) -> Seq<char>;

/// `str::parse::<u64>`.
///
/// Claimed, as the standard library documents it: the text is accepted
/// exactly when it is an optional `+` followed by one or more decimal digits
/// whose value fits in a `u64`, and then that is the value. The error's text
/// is named, not stated.
#[verifier::external_body]
pub(crate) fn parse_u64(s: &str) -> (r: Result<u64, String>)
    ensures
        match r {
            Ok(n) => unsigned_value(s@, 10, u64::MAX as int) == Some(n as int),
            Err(m) => unsigned_value(s@, 10, u64::MAX as int) is None && m@ == u64_error_text(s@),
        },
{
    s.parse::<u64>().map_err(|e| e.to_string())
}

/// What `u16::from_str_radix(_, 16)` says about `s` when it refuses it.
pub uninterp spec fn u16_hex_error_text(s: Seq<char>) -> Seq<char>;

/// `u16::from_str_radix(s, 16)`.
///
/// Claimed, as the standard library documents it: the text is accepted
/// exactly when it is an optional `+` followed by one or more hex digits of
/// either case whose value fits in a `u16`, and then that is the value. The
/// error's text is named, not stated.
#[verifier::external_body]
pub(crate) fn parse_u16_hex(s: &str) -> (r: Result<u16, String>)
    ensures
        match r {
            Ok(n) => unsigned_value(s@, 16, u16::MAX as int) == Some(n as int),
            Err(m) => unsigned_value(s@, 16, u16::MAX as int) is None && m@ == u16_hex_error_text(s@),
        },
{
    u16::from_str_radix(s, 16).map_err(|e| e.to_string())
}

/// `s` with every leading `0x` removed, as `trim_start_matches("0x")` does.
pub open spec fn strip_hex_prefixes(s: Seq<char>) -> Seq<char>
    decreases s.len(),
{
    if s.len() >= 2 && s[0] == '0' && s[1] == 'x' {
        strip_hex_prefixes(s.subrange(2, s.len() as int))
    } else {
        s
    }
}

/// `s` with every leading `0x` removed.
pub fn trim_hex_prefixes(s: &str) -> (r: String)
    ensures
        r@ == strip_hex_prefixes(s@),
{
    let cs = crate::text::chars_of(s);
    let mut i: usize = 0;
    assert(s@.subrange(0, s@.len() as int) =~= s@);
    while i + 1 < cs.len() && cs[i] == '0' && cs[i + 1] == 'x'
        invariant
            cs@ == s@,
            i <= cs.len(),
            i % 2 == 0,
            strip_hex_prefixes(s@) == strip_hex_prefixes(s@.subrange(i as int, s@.len() as int)),
        decreases cs.len() - i,
    {
        let ghost rest = s@.subrange(i as int, s@.len() as int);
        assert(rest.subrange(2, rest.len() as int) =~= s@.subrange(i + 2, s@.len() as int));
        i += 2;
    }
    let ghost rest = s@.subrange(i as int, s@.len() as int);
    assert(!(rest.len() >= 2 && rest[0] == '0' && rest[1] == 'x'));
    let mut out = String::new();
    let mut j = i;
    while j < cs.len()
        invariant
            cs@ == s@,
            i <= j <= cs.len(),
            out@ == s@.subrange(i as int, j as int),
        decreases cs.len() - j,
    {
        crate::text::push_char(&mut out, cs[j]);
        j += 1;
        assert(out@ =~= s@.subrange(i as int, j as int));
    }
    out
}

} // verus!
