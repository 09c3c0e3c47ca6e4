//! The command line shared by `altprobe` and `imeprobe`.
//!
//! The probes exist to measure one layer each, and a measurement you cannot
//! re-target is worth little: which key triggers, which dummy key suppresses
//! it, and how long a press still counts all have to be reachable without a
//! rebuild.
//!
//! Unrecognised or malformed arguments are **rejected, never ignored**. A typo
//! in `--left=LeftWin` that silently left the probe watching Alt would waste a
//! whole measurement session and produce a confident wrong answer.
use vstd::prelude::*;

use crate::inject::{is_extended, scan_of};
use crate::machine::{default_config, Config};
use crate::numbers::{
    parse_u16_hex, parse_u64, strip_hex_prefixes, trim_hex_prefixes, u16_hex_error_text, u64_error_text,
    unsigned_value,
};
use crate::settings::{
    problem_text, problems_of, trigger_name, trigger_named, trigger_names, trigger_names_view, trigger_vk,
    Settings, TriggerKey,
};
use crate::text::{
    chars_of, decimal, hex2, joined, push_decimal, push_hex2, push_str, str_eq, string_of,
};

verus! {

/// Which probe is parsing, and so which flags it accepts.
///
/// The two probes do not take the same flags: `--split` is read by
/// `imeprobe` alone, so `altprobe` refuses it rather than accepting and then
/// ignoring it.
#[derive(Debug, Clone, Copy, PartialEq, Eq)]
pub struct Probe {
    pub name: &'static str,
    /// Seconds before the probe quits on its own when `--secs` is absent.
    pub default_secs: u64,
    pub supports_split: bool,
}

/// The probe that checks whether suppression works, without touching the IME.
pub fn altprobe() -> (p: Probe)
    ensures
        p.name@ == "altprobe"@,
        p.default_secs == 90,
        !p.supports_split,
{
    Probe { name: "altprobe", default_secs: 90, supports_split: false }
}

/// The probe that checks IME switching.
pub fn imeprobe() -> (p: Probe)
    ensures
        p.name@ == "imeprobe"@,
        p.default_secs == 120,
        p.supports_split,
{
    Probe { name: "imeprobe", default_secs: 120, supports_split: true }
}

#[derive(Debug, Clone, Copy, PartialEq, Eq, Structural)]
pub struct ProbeArgs {
    /// Seconds before quitting on our own. 0 disables it.
    pub secs: u64,
    /// The key injected to stop a solo press from looking solo.
    pub dummy_vk: u16,
    /// Solo press of this key means "off".
    pub left: TriggerKey,
    /// Solo press of this key means "on".
    pub right: TriggerKey,
    /// Send the suppression and the IME keys as two `SendInput` calls.
    /// Accepted only by a probe whose `Probe::supports_split` is set.
    pub split: bool,
    pub threshold_ms: u64,
    /// Print the header and exit without installing any hook.
    pub dry_run: bool,
}

/// The flags every probe takes, in the usage line.
pub const USAGE_FLAGS: &'static str = " [--secs=N] [--dummy=HEX] [--left=KEY] [--right=KEY] [--threshold=MS] [--dry-run]";

/// The flag only a probe that reads it advertises.
pub const USAGE_SPLIT: &'static str = " [--split]";

/// The end of the usage text.
pub const USAGE_TAIL: &'static str = "\n  --dry-run: print the settings and exit, installing no hook";

/// The usage text of a probe: its name, the flags it accepts (`--split` only
/// where it is read), and every trigger name.
pub open spec fn usage_text(p: Probe) -> Seq<char> {
    "usage: "@ + p.name@ + USAGE_FLAGS@ + (if p.supports_split {
        USAGE_SPLIT@
    } else {
        Seq::empty()
    }) + "\n  KEY: "@ + joined(trigger_names_view(), ", "@) + USAGE_TAIL@
}

/// Where the first `=` of an argument is, if it has one.
pub open spec fn first_eq(a: Seq<char>) -> Option<int> {
    if exists|i: int| 0 <= i < a.len() && a[i] == '=' {
        Some(
            choose|i: int| 0 <= i < a.len() && a[i] == '=' && forall|j: int| 0 <= j < i ==> a[j] != '=',
        )
    } else {
        None
    }
}

/// The flag part of an argument: everything before its first `=`.
pub open spec fn arg_key(a: Seq<char>) -> Seq<char> {
    match first_eq(a) {
        Some(i) => a.subrange(0, i),
        None => a,
    }
}

/// The value part of an argument: everything after its first `=`, if any.
pub open spec fn arg_value(a: Seq<char>) -> Option<Seq<char>> {
    match first_eq(a) {
        Some(i) => Some(a.subrange(i + 1, a.len() as int)),
        None => None,
    }
}

/// A number flag's value, or why it is refused.
pub open spec fn number_arg(key: Seq<char>, value: Option<Seq<char>>) -> Result<u64, Seq<char>> {
    match value {
        None => Err(key + " needs a value"@),
        Some(v) => match unsigned_value(v, 10, u64::MAX as int) {
            Some(n) => Ok(n as u64),
            None => Err(key + "="@ + v + " is not a number: "@ + u64_error_text(v)),
        },
    }
}

/// A trigger flag's value, or why it is refused.
pub open spec fn trigger_arg(key: Seq<char>, value: Option<Seq<char>>) -> Result<TriggerKey, Seq<char>> {
    match value {
        None => Err(key + " needs a value"@),
        Some(v) => match trigger_named(v) {
            Some(k) => Ok(k),
            None => Err(v + " is not a trigger key. One of: "@ + joined(trigger_names_view(), ", "@)),
        },
    }
}

/// The dummy flag's value, or why it is refused. Hex, with any leading `0x`
/// ignored.
pub open spec fn dummy_arg(key: Seq<char>, value: Option<Seq<char>>) -> Result<u16, Seq<char>> {
    match value {
        None => Err(key + " needs a value"@),
        Some(v) => match unsigned_value(strip_hex_prefixes(v), 16, u16::MAX as int) {
            Some(n) => Ok(n as u16),
            None => Err("--dummy="@ + v + " is not a hex byte: "@ + u16_hex_error_text(
                strip_hex_prefixes(v),
            )),
        },
    }
}

/// Why a flag that takes no value is refused when given one: `--split=no`
/// must not read as `--split`.
pub open spec fn no_value_text(key: Seq<char>) -> Seq<char> {
    key + " takes no value"@
}

/// One argument applied on top of `acc`, or why it is refused.
pub open spec fn apply_arg(p: Probe, acc: ProbeArgs, a: Seq<char>) -> Result<ProbeArgs, Seq<char>> {
    let key = arg_key(a);
    let value = arg_value(a);
    if key == "--secs"@ {
        match number_arg(key, value) {
            Ok(n) => Ok(ProbeArgs { secs: n, ..acc }),
            Err(e) => Err(e),
        }
    } else if key == "--threshold"@ {
        match number_arg(key, value) {
            Ok(n) => Ok(ProbeArgs { threshold_ms: n, ..acc }),
            Err(e) => Err(e),
        }
    } else if key == "--dummy"@ {
        match dummy_arg(key, value) {
            Ok(n) => Ok(ProbeArgs { dummy_vk: n, ..acc }),
            Err(e) => Err(e),
        }
    } else if key == "--left"@ {
        match trigger_arg(key, value) {
            Ok(k) => Ok(ProbeArgs { left: k, ..acc }),
            Err(e) => Err(e),
        }
    } else if key == "--right"@ {
        match trigger_arg(key, value) {
            Ok(k) => Ok(ProbeArgs { right: k, ..acc }),
            Err(e) => Err(e),
        }
    } else if key == "--split"@ && p.supports_split {
        match value {
            None => Ok(ProbeArgs { split: true, ..acc }),
            Some(_) => Err(no_value_text(key)),
        }
    } else if key == "--dry-run"@ {
        match value {
            None => Ok(ProbeArgs { dry_run: true, ..acc }),
            Some(_) => Err(no_value_text(key)),
        }
    } else {
        Err("unknown argument "@ + key)
    }
}

/// Every argument applied in turn; the first refusal wins.
pub open spec fn apply_args(p: Probe, acc: ProbeArgs, args: Seq<Seq<char>>) -> Result<ProbeArgs, Seq<char>>
    decreases args.len(),
{
    if args.len() == 0 {
        Ok(acc)
    } else {
        match apply_arg(p, acc, args[0]) {
            Ok(next) => apply_args(p, next, args.drop_first()),
            Err(e) => Err(e),
        }
    }
}

/// What a probe runs with when given no flags.
pub open spec fn default_args(p: Probe) -> ProbeArgs {
    ProbeArgs {
        secs: p.default_secs,
        dummy_vk: 0x07,
        left: TriggerKey::LeftAlt,
        right: TriggerKey::RightAlt,
        split: false,
        threshold_ms: default_config().threshold_ms,
        dry_run: false,
    }
}

/// The settings the probes check their arguments against. The probes always
/// watch both sides, so neither slot is ever empty here, and they have no
/// tray icon to show the IME on.
pub open spec fn args_settings(a: ProbeArgs) -> Settings {
    Settings {
        left_trigger: Some(a.left),
        right_trigger: Some(a.right),
        threshold_ms: a.threshold_ms,
        dummy_vk: a.dummy_vk,
        show_ime_state: false,
    }
}

/// What a probe makes of its command line (without the program name): the
/// flags applied on top of its defaults, unless one is refused or the result
/// cannot work, in which case the first problem's sentence.
pub open spec fn parsed_args(p: Probe, args: Seq<Seq<char>>) -> Result<ProbeArgs, Seq<char>> {
    match apply_args(p, default_args(p), args) {
        Err(e) => Err(e),
        Ok(a) => if problems_of(args_settings(a)).len() > 0 {
            Err(problem_text(problems_of(args_settings(a))[0]))
        } else {
            Ok(a)
        },
    }
}

/// The plain value of an arguments-or-message result.
pub open spec fn args_result_view(r: Result<ProbeArgs, String>) -> Result<ProbeArgs, Seq<char>> {
    match r {
        Ok(a) => Ok(a),
        Err(m) => Err(m@),
    }
}

/// The views of a list of strings.
pub open spec fn strings_view(items: Seq<String>) -> Seq<Seq<char>> {
    items.map_values(|s: String| s@)
}

/// Split an argument at its first `=`.
fn takes_no_value(key: &str) -> (r: String)
    ensures
        r@ == no_value_text(key@),
{
    let mut m = String::new();
    push_str(&mut m, key);
    push_str(&mut m, " takes no value");
    m
}

fn split_arg(a: &str) -> (r: (String, Option<String>))
    ensures
        r.0@ == arg_key(a@),
        match (r.1, arg_value(a@)) {
            (Some(x), Some(y)) => x@ == y,
            (None, None) => true,
            _ => false,
        },
{
    let cs = chars_of(a);
    let mut i: usize = 0;
    while i < cs.len() && cs[i] != '='
        invariant
            cs@ == a@,
            i <= cs.len(),
            forall|j: int| 0 <= j < i ==> a@[j] != '=',
        decreases cs.len() - i,
    {
        i += 1;
    }
    let mut key: Vec<char> = Vec::new();
    let mut j: usize = 0;
    while j < i
        invariant
            cs@ == a@,
            i <= cs.len(),
            j <= i,
            key@ == a@.subrange(0, j as int),
        decreases i - j,
    {
        key.push(cs[j]);
        j += 1;
        assert(key@ =~= a@.subrange(0, j as int));
    }
    let key_s = string_of(&key);
    if i == cs.len() {
        assert(!exists|k: int| 0 <= k < a@.len() && a@[k] == '=');
        assert(key@ =~= a@);
        return (key_s, None);
    }
    proof {
        assert(a@[i as int] == '=');
        let c = choose|k: int|
            0 <= k < a@.len() && a@[k] == '=' && forall|m: int| 0 <= m < k ==> a@[m] != '=';
        assert(c == i);
    }
    let mut value: Vec<char> = Vec::new();
    let mut k: usize = i + 1;
    while k < cs.len()
        invariant
            cs@ == a@,
            i < cs.len(),
            i + 1 <= k <= cs.len(),
            value@ == a@.subrange(i + 1, k as int),
        decreases cs.len() - k,
    {
        value.push(cs[k]);
        k += 1;
        assert(value@ =~= a@.subrange(i + 1, k as int));
    }
    (key_s, Some(string_of(&value)))
}

fn needs_value(key: &str) -> (r: String)
    ensures
        r@ == key@ + " needs a value"@,
{
    let mut m = String::new();
    push_str(&mut m, key);
    push_str(&mut m, " needs a value");
    m
}

fn parse_number(key: &str, value: &Option<String>) -> (r: Result<u64, String>)
    ensures
        match (r, number_arg(key@, option_view(*value))) {
            (Ok(a), Ok(b)) => a == b,
            (Err(a), Err(b)) => a@ == b,
            _ => false,
        },
{
    match value {
        None => Err(needs_value(key)),
        Some(v) => match parse_u64(v.as_str()) {
            Ok(n) => Ok(n),
            Err(e) => {
                let mut m = String::new();
                push_str(&mut m, key);
                push_str(&mut m, "=");
                push_str(&mut m, v.as_str());
                push_str(&mut m, " is not a number: ");
                push_str(&mut m, e.as_str());
                Err(m)
            },
        },
    }
}

/// `parse_trigger`: a trigger named on a command line, whatever its case.
pub fn parse_trigger(v: &str) -> (r: Result<TriggerKey, String>)
    ensures
        match (r, trigger_named(v@)) {
            (Ok(a), Some(b)) => a == b,
            (Err(m), None) => m@ == v@ + " is not a trigger key. One of: "@ + joined(
                trigger_names_view(),
                ", "@,
            ),
            _ => false,
        },
{
    match TriggerKey::from_name(v) {
        Some(k) => Ok(k),
        None => {
            let names = trigger_names();
            let mut m = String::new();
            push_str(&mut m, v);
            push_str(&mut m, " is not a trigger key. One of: ");
            let list = crate::text::join(&names, ", ");
            push_str(&mut m, list.as_str());
            Err(m)
        },
    }
}

fn parse_trigger_arg(key: &str, value: &Option<String>) -> (r: Result<TriggerKey, String>)
    ensures
        match (r, trigger_arg(key@, option_view(*value))) {
            (Ok(a), Ok(b)) => a == b,
            (Err(a), Err(b)) => a@ == b,
            _ => false,
        },
{
    match value {
        None => Err(needs_value(key)),
        Some(v) => parse_trigger(v.as_str()),
    }
}

fn parse_dummy(key: &str, value: &Option<String>) -> (r: Result<u16, String>)
    ensures
        match (r, dummy_arg(key@, option_view(*value))) {
            (Ok(a), Ok(b)) => a == b,
            (Err(a), Err(b)) => a@ == b,
            _ => false,
        },
{
    match value {
        None => Err(needs_value(key)),
        Some(v) => {
            let digits = trim_hex_prefixes(v.as_str());
            match parse_u16_hex(digits.as_str()) {
                Ok(n) => Ok(n),
                Err(e) => {
                    let mut m = String::new();
                    push_str(&mut m, "--dummy=");
                    push_str(&mut m, v.as_str());
                    push_str(&mut m, " is not a hex byte: ");
                    push_str(&mut m, e.as_str());
                    Err(m)
                },
            }
        },
    }
}

/// The plain value of an optional string.
pub open spec fn option_view(v: Option<String>) -> Option<Seq<char>> {
    match v {
        Some(s) => Some(s@),
        None => None,
    }
}

impl Probe {
    /// Printed on a parse error, so the caller does not have to keep its own
    /// copy in sync with what is actually accepted.
    pub fn usage(&self) -> (r: String)
        ensures
            r@ == usage_text(*self),
    {
        let names = trigger_names();
        let mut out = String::new();
        push_str(&mut out, "usage: ");
        push_str(&mut out, self.name);
        push_str(&mut out, USAGE_FLAGS);
        if self.supports_split {
            push_str(&mut out, USAGE_SPLIT);
        }
        push_str(&mut out, "\n  KEY: ");
        let list = crate::text::join(&names, ", ");
        push_str(&mut out, list.as_str());
        push_str(&mut out, USAGE_TAIL);
        proof {
            if !self.supports_split {
                assert(out@ =~= usage_text(*self));
            }
        }
        out
    }

    fn apply(&self, acc: ProbeArgs, arg: &str) -> (r: Result<ProbeArgs, String>)
        ensures
            args_result_view(r) == apply_arg(*self, acc, arg@),
    {
        let (key_s, value) = split_arg(arg);
        let key = key_s.as_str();
        if str_eq(key, "--secs") {
            match parse_number(key, &value) {
                Ok(n) => Ok(ProbeArgs { secs: n, ..acc }),
                Err(e) => Err(e),
            }
        } else if str_eq(key, "--threshold") {
            match parse_number(key, &value) {
                Ok(n) => Ok(ProbeArgs { threshold_ms: n, ..acc }),
                Err(e) => Err(e),
            }
        } else if str_eq(key, "--dummy") {
            match parse_dummy(key, &value) {
                Ok(n) => Ok(ProbeArgs { dummy_vk: n, ..acc }),
                Err(e) => Err(e),
            }
        } else if str_eq(key, "--left") {
            match parse_trigger_arg(key, &value) {
                Ok(k) => Ok(ProbeArgs { left: k, ..acc }),
                Err(e) => Err(e),
            }
        } else if str_eq(key, "--right") {
            match parse_trigger_arg(key, &value) {
                Ok(k) => Ok(ProbeArgs { right: k, ..acc }),
                Err(e) => Err(e),
            }
        } else if str_eq(key, "--split") && self.supports_split {
            // A probe that never reads it falls through to the unknown
            // argument arm below: to that probe this is a flag it has never
            // heard of.
            match value {
                None => Ok(ProbeArgs { split: true, ..acc }),
                Some(_) => Err(takes_no_value(key)),
            }
        } else if str_eq(key, "--dry-run") {
            match value {
                None => Ok(ProbeArgs { dry_run: true, ..acc }),
                Some(_) => Err(takes_no_value(key)),
            }
        } else {
            let mut m = String::new();
            push_str(&mut m, "unknown argument ");
            push_str(&mut m, key);
            Err(m)
        }
    }

    /// Read a probe's command line: the arguments after the program name.
    pub fn parse(&self, args: &Vec<String>) -> (r: Result<ProbeArgs, String>)
        ensures
            args_result_view(r) == parsed_args(*self, strings_view(args@)),
    {
        let ghost all = strings_view(args@);
        let defaults = Config::default();
        let mut acc = ProbeArgs {
            secs: self.default_secs,
            dummy_vk: 0x07,
            left: TriggerKey::LeftAlt,
            right: TriggerKey::RightAlt,
            split: false,
            threshold_ms: defaults.threshold_ms,
            dry_run: false,
        };
        let mut i: usize = 0;
        assert(all.subrange(0, all.len() as int) =~= all);
        while i < args.len()
            invariant
                all == strings_view(args@),
                i <= args.len(),
                apply_args(*self, acc, all.subrange(i as int, all.len() as int)) == apply_args(
                    *self,
                    default_args(*self),
                    all,
                ),
            decreases args.len() - i,
        {
            let ghost rest = all.subrange(i as int, all.len() as int);
            assert(rest[0] == args@[i as int]@);
            assert(rest.drop_first() =~= all.subrange(i + 1, all.len() as int));
            assert(rest.len() > 0);
            assert(apply_args(*self, acc, rest) == match apply_arg(*self, acc, rest[0]) {
                Ok(next) => apply_args(*self, next, rest.drop_first()),
                Err(e) => Err(e),
            });
            match self.apply(acc, args[i].as_str()) {
                Ok(next) => acc = next,
                Err(e) => return Err(e),
            }
            i += 1;
        }
        assert(all.subrange(i as int, all.len() as int) =~= Seq::<Seq<char>>::empty());
        // `problems` reports only what cannot work, so an odd but measurable
        // value like --threshold=900 still runs, which is the whole point of a
        // probe. What must not run is a combination that cannot do what the
        // flags say it does.
        let problems = acc.settings().problems();
        if problems.len() > 0 {
            return Err(problems[0].message());
        }
        Ok(acc)
    }
}

impl ProbeArgs {
    /// The probes always watch both sides, so neither slot is ever empty here.
    fn settings(&self) -> (r: Settings)
        ensures
            r == args_settings(*self),
    {
        Settings {
            left_trigger: Some(self.left),
            right_trigger: Some(self.right),
            threshold_ms: self.threshold_ms,
            dummy_vk: self.dummy_vk,
            show_ime_state: false,
        }
    }

    pub fn config(&self) -> (r: Config)
        ensures
            r == (Config {
                left_trigger: trigger_vk(self.left),
                right_trigger: trigger_vk(self.right),
                threshold_ms: self.threshold_ms,
            }),
    {
        Config {
            left_trigger: self.left.vk(),
            right_trigger: self.right.vk(),
            threshold_ms: self.threshold_ms,
        }
    }

    /// The header every probe prints.
    ///
    /// It spells out the scan code and extendedness of everything injected,
    /// because both are invisible when wrong: a Win up missing the extended
    /// flag sticks the key down, and a dummy with no scan code silently fails
    /// to suppress the start menu. `built_from` names the source tree the
    /// binary came from; the `mapped_*` are what
    /// `MapVirtualKeyW(vk, MAPVK_VK_TO_VSC_EX)` returned for the left trigger,
    /// the right trigger and the dummy.
    pub fn describe(&self, built_from: &str, mapped_left: u32, mapped_right: u32, mapped_dummy: u32) -> (r:
        String)
        ensures
            r@ == "built from: "@ + built_from@ + "\noff: "@ + key_text(
                trigger_vk(self.left),
                trigger_name(self.left),
                mapped_left,
            ) + "\non:  "@ + key_text(trigger_vk(self.right), trigger_name(self.right), mapped_right)
                + "\ndummy: "@ + key_text(self.dummy_vk, "dummy"@, mapped_dummy) + "\nthreshold: "@
                + decimal(self.threshold_ms as nat) + "ms"@,
    {
        let mut out = String::new();
        push_str(&mut out, "built from: ");
        push_str(&mut out, built_from);
        push_str(&mut out, "\noff: ");
        push_key(&mut out, self.left.vk(), self.left.name(), mapped_left);
        push_str(&mut out, "\non:  ");
        push_key(&mut out, self.right.vk(), self.right.name(), mapped_right);
        push_str(&mut out, "\ndummy: ");
        push_key(&mut out, self.dummy_vk, "dummy", mapped_dummy);
        push_str(&mut out, "\nthreshold: ");
        push_decimal(&mut out, self.threshold_ms);
        push_str(&mut out, "ms");
        out
    }
}

/// How the header shows one key: `NAME (vk 0xVK, scan 0xSC[, extended])`.
pub open spec fn key_text(vk: u16, name: Seq<char>, mapped: u32) -> Seq<char> {
    name + " (vk 0x"@ + hex2(vk as nat) + ", scan 0x"@ + hex2((mapped % 256) as nat) + (if mapped / 256
        == 0xE0 {
        ", extended"@
    } else {
        Seq::empty()
    }) + ")"@
}

fn push_key(out: &mut String, vk: u16, name: &str, mapped: u32)
    ensures
        final(out)@ == old(out)@ + key_text(vk, name@, mapped),
{
    let ghost start = out@;
    push_str(out, name);
    push_str(out, " (vk 0x");
    push_hex2(out, vk as u64);
    push_str(out, ", scan 0x");
    push_hex2(out, scan_of(mapped) as u64);
    if is_extended(mapped) {
        push_str(out, ", extended");
    }
    push_str(out, ")");
    proof {
        if !(mapped / 256 == 0xE0) {
            assert(out@ =~= start + key_text(vk, name@, mapped));
        }
    }
}

/// A probe advertises `--split` in its usage line exactly when its parser
/// accepts the flag; any other probe refuses it as unknown.
pub proof fn law_split_is_offered_exactly_where_it_is_read(p: Probe, acc: ProbeArgs)
    ensures
        p.supports_split ==> apply_arg(p, acc, "--split"@) == Ok::<ProbeArgs, Seq<char>>(
            ProbeArgs { split: true, ..acc },
        ),
        !p.supports_split ==> apply_arg(p, acc, "--split"@) is Err,
        usage_text(p) == "usage: "@ + p.name@ + USAGE_FLAGS@ + (if p.supports_split {
            USAGE_SPLIT@
        } else {
            Seq::empty()
        }) + "\n  KEY: "@ + joined(trigger_names_view(), ", "@) + USAGE_TAIL@,
{
    reveal_strlit("--split");
    reveal_strlit("--secs");
    reveal_strlit("--threshold");
    reveal_strlit("--dummy");
    reveal_strlit("--left");
    reveal_strlit("--right");
    reveal_strlit("--dry-run");
    let a = "--split"@;
    assert(!exists|i: int| 0 <= i < a.len() && a[i] == '=');
    assert(arg_key(a) == a);
    assert(a != "--secs"@);
    assert(a != "--threshold"@);
    assert(a[2] != "--dummy"@[2]);
    assert(a != "--dummy"@);
    assert(a != "--left"@);
    assert(a[2] != "--right"@[2]);
    assert(a != "--right"@);
    assert(a != "--dry-run"@);
}

/// A command line holding anything unrecognised is refused.
pub proof fn law_unknown_flags_are_refused(p: Probe, acc: ProbeArgs, a: Seq<char>)
    requires
        arg_key(a) != "--secs"@,
        arg_key(a) != "--threshold"@,
        arg_key(a) != "--dummy"@,
        arg_key(a) != "--left"@,
        arg_key(a) != "--right"@,
        arg_key(a) != "--split"@,
        arg_key(a) != "--dry-run"@,
    ensures
        apply_arg(p, acc, a) == Err::<ProbeArgs, Seq<char>>("unknown argument "@ + arg_key(a)),
{
}

/// A flag that takes no value is refused when given one, whatever the value
/// says, and so is any command line holding such an argument: `--split=no`
/// never reads as `--split`.
pub proof fn law_bare_flags_take_no_value(p: Probe, acc: ProbeArgs, a: Seq<char>)
    requires
        arg_value(a) is Some,
        arg_key(a) == "--dry-run"@ || (arg_key(a) == "--split"@ && p.supports_split),
    ensures
        apply_arg(p, acc, a) == Err::<ProbeArgs, Seq<char>>(no_value_text(arg_key(a))),
        parsed_args(p, seq![a]) == Err::<ProbeArgs, Seq<char>>(no_value_text(arg_key(a))),
{
    reveal_strlit("--split");
    reveal_strlit("--secs");
    reveal_strlit("--threshold");
    reveal_strlit("--dummy");
    reveal_strlit("--left");
    reveal_strlit("--right");
    reveal_strlit("--dry-run");
    let k = arg_key(a);
    if k == "--split"@ {
        assert(k[2] != "--dummy"@[2]);
        assert(k[2] != "--right"@[2]);
        assert(k[3] != "--secs"@[3]);
    } else {
        assert(k[3] != "--dummy"@[3]);
        assert(k[2] != "--right"@[2]);
        assert(k[2] != "--secs"@[2]);
    }
    assert(k != "--secs"@);
    assert(k != "--threshold"@);
    assert(k != "--dummy"@);
    assert(k != "--left"@);
    assert(k != "--right"@);
    assert(apply_args(p, default_args(p), seq![a]) == match apply_arg(p, default_args(p), seq![a][0]) {
        Ok(next) => apply_args(p, next, seq![a].drop_first()),
        Err(e) => Err(e),
    });
}

/// Whatever is accepted passes the same validation as the settings dialog:
/// a probe never runs with settings that cannot work.
pub proof fn law_accepted_arguments_have_no_problems(p: Probe, args: Seq<Seq<char>>)
    ensures
        parsed_args(p, args) matches Ok(a) ==> problems_of(args_settings(a)).len() == 0,
{
}

} // verus!
