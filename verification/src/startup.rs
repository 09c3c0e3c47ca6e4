//! What the app reads from its command line and reports as it starts.
use vstd::prelude::*;

use crate::machine::Side;
use crate::numbers::{parse_u64, unsigned_value};
use crate::settings::{slot_text, Runtime, Settings};
use crate::text::{decimal, hex2, push_decimal, push_hex2, push_str};

verus! {

/// The flag that makes the app quit on its own.
pub const EXIT_AFTER: &'static str = "--exit-after=";

/// Whether `a` starts with `prefix`, and what follows it.
pub open spec fn after_prefix(a: Seq<char>, prefix: Seq<char>) -> Option<Seq<char>> {
    if a.len() >= prefix.len() && a.subrange(0, prefix.len() as int) == prefix {
        Some(a.subrange(prefix.len() as int, a.len() as int))
    } else {
        None
    }
}

/// The first argument that is `--exit-after=...`, and the number it holds;
/// `None` when there is no such argument or the first one holds no number.
pub open spec fn exit_after_of(args: Seq<Seq<char>>) -> Option<u64>
    decreases args.len(),
{
    if args.len() == 0 {
        None
    } else {
        match after_prefix(args[0], EXIT_AFTER@) {
            Some(v) => match unsigned_value(v, 10, u64::MAX as int) {
                Some(n) => Some(n as u64),
                None => None,
            },
            None => exit_after_of(args.drop_first()),
        }
    }
}

fn strip_prefix(a: &str, prefix: &str) -> (r: Option<String>)
    ensures
        match (r, after_prefix(a@, prefix@)) {
            (Some(x), Some(y)) => x@ == y,
            (None, None) => true,
            _ => false,
        },
{
    let cs = crate::text::chars_of(a);
    let ps = crate::text::chars_of(prefix);
    if cs.len() < ps.len() {
        return None;
    }
    let mut i: usize = 0;
    while i < ps.len()
        invariant
            cs@ == a@,
            ps@ == prefix@,
            ps.len() <= cs.len(),
            i <= ps.len(),
            forall|j: int| 0 <= j < i ==> cs@[j] == ps@[j],
        decreases ps.len() - i,
    {
        if cs[i] != ps[i] {
            assert(a@.subrange(0, prefix@.len() as int)[i as int] != prefix@[i as int]);
            return None;
        }
        i += 1;
    }
    assert(a@.subrange(0, prefix@.len() as int) =~= prefix@);
    let mut rest: Vec<char> = Vec::new();
    let mut k = ps.len();
    while k < cs.len()
        invariant
            cs@ == a@,
            ps@ == prefix@,
            ps.len() <= k <= cs.len(),
            rest@ == a@.subrange(prefix@.len() as int, k as int),
        decreases cs.len() - k,
    {
        rest.push(cs[k]);
        k += 1;
        assert(rest@ =~= a@.subrange(prefix@.len() as int, k as int));
    }
    Some(crate::text::string_of(&rest))
}

/// Seconds after which to quit on our own, from `--exit-after=<seconds>`.
///
/// The escape hatch for developing on the machine you are sitting at: the app
/// suppresses real Alt up events, so a bug that wedges the message loop would
/// otherwise need Ctrl+Alt+Del to recover from. Off unless asked for.
pub fn exit_after_secs(args: &Vec<String>) -> (r: Option<u64>)
    ensures
        r == exit_after_of(crate::probe_args::strings_view(args@)),
{
    let ghost all = crate::probe_args::strings_view(args@);
    let mut i: usize = 0;
    assert(all.subrange(0, all.len() as int) =~= all);
    while i < args.len()
        invariant
            all == crate::probe_args::strings_view(args@),
            i <= args.len(),
            exit_after_of(all.subrange(i as int, all.len() as int)) == exit_after_of(all),
        decreases args.len() - i,
    {
        let ghost rest = all.subrange(i as int, all.len() as int);
        assert(rest[0] == args@[i as int]@);
        assert(rest.drop_first() =~= all.subrange(i + 1, all.len() as int));
        match strip_prefix(args[i].as_str(), EXIT_AFTER) {
            Some(v) => {
                return match parse_u64(v.as_str()) {
                    Ok(n) => Some(n),
                    Err(_) => None,
                };
            },
            None => {},
        }
        i += 1;
    }
    assert(all.subrange(i as int, all.len() as int) =~= Seq::<Seq<char>>::empty());
    None
}

/// The line logged at start-up saying what the keys will do.
pub fn startup_summary(s: &Settings) -> (r: String)
    ensures
        r@ == "  solo "@ + slot_text(s.left_trigger) + " -> IME off, solo "@ + slot_text(s.right_trigger)
            + " -> IME on, hold past "@ + decimal(s.threshold_ms as nat) + "ms -> ordinary key"@,
{
    let mut m = String::new();
    push_str(&mut m, "  solo ");
    push_str(&mut m, crate::settings::slot_name(s.left_trigger));
    push_str(&mut m, " -> IME off, solo ");
    push_str(&mut m, crate::settings::slot_name(s.right_trigger));
    push_str(&mut m, " -> IME on, hold past ");
    push_decimal(&mut m, s.threshold_ms);
    push_str(&mut m, "ms -> ordinary key");
    m
}

/// The line logged when the hook thread applies a new configuration.
pub fn config_applied_line(rt: &Runtime) -> (r: String)
    ensures
        r@ == "config applied: triggers 0x"@ + hex2(rt.core.left_trigger as nat) + "/0x"@ + hex2(
            rt.core.right_trigger as nat,
        ) + ", "@ + decimal(rt.core.threshold_ms as nat) + "ms, dummy 0x"@ + hex2(rt.dummy_vk as nat),
{
    let mut m = String::new();
    push_str(&mut m, "config applied: triggers 0x");
    push_hex2(&mut m, rt.core.left_trigger as u64);
    push_str(&mut m, "/0x");
    push_hex2(&mut m, rt.core.right_trigger as u64);
    push_str(&mut m, ", ");
    push_decimal(&mut m, rt.core.threshold_ms);
    push_str(&mut m, "ms, dummy 0x");
    push_hex2(&mut m, rt.dummy_vk as u64);
    m
}

/// The line logged when a solo press fires: `fire Left` or `fire Right`,
/// and, when fewer events went out than the batch held, that the injection
/// failed and the modifiers are being released.
pub fn fire_line(side: Side, sent: u32, expected: u32) -> (r: String)
    ensures
        r@ == "fire "@ + (match side {
            Side::Left => "Left"@,
            Side::Right => "Right"@,
        }) + if sent == expected {
            Seq::empty()
        } else {
            " FAILED (SendInput="@ + decimal(sent as nat) + "/"@ + decimal(expected as nat)
                + "), releasing modifiers"@
        },
{
    let mut m = String::new();
    push_str(&mut m, "fire ");
    match side {
        Side::Left => push_str(&mut m, "Left"),
        Side::Right => push_str(&mut m, "Right"),
    }
    if sent != expected {
        push_str(&mut m, " FAILED (SendInput=");
        push_decimal(&mut m, sent as u64);
        push_str(&mut m, "/");
        push_decimal(&mut m, expected as u64);
        push_str(&mut m, "), releasing modifiers");
    }
    m
}

} // verus!
