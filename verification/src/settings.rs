//! Settings, stored in a TOML file.
//!
//! Trigger keys are named rather than numeric, because a virtual-key code is a
//! terrible thing to hand-edit and because the settings dialog wants exactly
//! this list to populate its dropdowns.
//!
//! The settings dialog is the front end; the file is the durable record and is
//! still worth reading, because its comments carry the measurements the values
//! rest on.
use vstd::prelude::*;

use crate::machine::{Config, VK_NONE};
use crate::text::{
    chars_of, decimal, eq_ignore_ascii_case, hex2, push_decimal, push_hex2, push_str, same_ignoring_ascii_case,
    str_eq,
};
use crate::toml_doc::{parse_table, toml_table, TomlEntry, TomlScalar, TomlValue};

verus! {

/// A key that can act as a trigger.
///
/// Deliberately not "any key": a solo press has to be robbed of its usual side
/// effect, and that only works for keys whose side effect was measured.
#[derive(Debug, Clone, Copy, PartialEq, Eq, Structural)]
pub enum TriggerKey {
    LeftAlt,
    RightAlt,
    LeftCtrl,
    RightCtrl,
    LeftShift,
    RightShift,
    LeftWin,
    RightWin,
    /// The context-menu key, `VK_APPS`.
    ///
    /// **Not Alt.** Win32 calls Alt `VK_MENU`, so "Menu" is ambiguous in code;
    /// this is the key with the menu glyph on it, next to right Ctrl. It is also
    /// the only trigger that is not a modifier.
    Menu,
}

/// Every trigger, in the order the config file and the settings dialog
/// present them.
pub open spec fn trigger_list() -> Seq<TriggerKey> {
    seq![
        TriggerKey::LeftAlt,
        TriggerKey::RightAlt,
        TriggerKey::LeftCtrl,
        TriggerKey::RightCtrl,
        TriggerKey::LeftShift,
        TriggerKey::RightShift,
        TriggerKey::LeftWin,
        TriggerKey::RightWin,
        TriggerKey::Menu,
    ]
}

/// The virtual-key code of a trigger.
pub open spec fn trigger_vk(k: TriggerKey) -> u16 {
    match k {
        TriggerKey::LeftAlt => 0xA4,
        TriggerKey::RightAlt => 0xA5,
        TriggerKey::LeftCtrl => 0xA2,
        TriggerKey::RightCtrl => 0xA3,
        TriggerKey::LeftShift => 0xA0,
        TriggerKey::RightShift => 0xA1,
        TriggerKey::LeftWin => 0x5B,
        TriggerKey::RightWin => 0x5C,
        TriggerKey::Menu => 0x5D,
    }
}

/// The name of a trigger in the config file, the dialog and the probes.
pub open spec fn trigger_name(k: TriggerKey) -> Seq<char> {
    match k {
        TriggerKey::LeftAlt => "LeftAlt"@,
        TriggerKey::RightAlt => "RightAlt"@,
        TriggerKey::LeftCtrl => "LeftCtrl"@,
        TriggerKey::RightCtrl => "RightCtrl"@,
        TriggerKey::LeftShift => "LeftShift"@,
        TriggerKey::RightShift => "RightShift"@,
        TriggerKey::LeftWin => "LeftWin"@,
        TriggerKey::RightWin => "RightWin"@,
        TriggerKey::Menu => "Menu"@,
    }
}

/// The trigger whose virtual-key code is `vk`, if any.
pub open spec fn trigger_with_vk(vk: u16) -> Option<TriggerKey> {
    if exists|k: TriggerKey| trigger_vk(k) == vk {
        Some(choose|k: TriggerKey| trigger_vk(k) == vk)
    } else {
        None
    }
}

/// What an unset trigger is called in the config file.
///
/// TOML has no null, and leaving a key out of the file already means "use the
/// default", so switching a trigger off needs a word of its own.
pub const NONE_NAME: &'static str = "None";

/// What a trigger slot is called, whether or not it holds a key.
pub open spec fn slot_text(slot: Option<TriggerKey>) -> Seq<char> {
    match slot {
        Some(k) => trigger_name(k),
        None => NONE_NAME@,
    }
}

/// The slot a config-file spelling stands for: a trigger's exact name, or
/// `NONE_NAME` for an empty slot. `None` when it is neither.
pub open spec fn slot_from_text(s: Seq<char>) -> Option<Option<TriggerKey>> {
    if s == NONE_NAME@ {
        Some(None)
    } else if exists|k: TriggerKey| trigger_name(k) == s {
        Some(Some(choose|k: TriggerKey| trigger_name(k) == s))
    } else {
        None
    }
}

impl TriggerKey {
    /// Every trigger, in the order the config file and the settings dialog
    /// present them.
    pub fn all() -> (r: [TriggerKey; 9])
        ensures
            r@ == trigger_list(),
    {
        let r = [
            TriggerKey::LeftAlt,
            TriggerKey::RightAlt,
            TriggerKey::LeftCtrl,
            TriggerKey::RightCtrl,
            TriggerKey::LeftShift,
            TriggerKey::RightShift,
            TriggerKey::LeftWin,
            TriggerKey::RightWin,
            TriggerKey::Menu,
        ];
        assert(r@ =~= trigger_list());
        r
    }

    pub fn vk(self) -> (r: u16)
        ensures
            r == trigger_vk(self),
    {
        match self {
            TriggerKey::LeftAlt => 0xA4,
            TriggerKey::RightAlt => 0xA5,
            TriggerKey::LeftCtrl => 0xA2,
            TriggerKey::RightCtrl => 0xA3,
            TriggerKey::LeftShift => 0xA0,
            TriggerKey::RightShift => 0xA1,
            TriggerKey::LeftWin => 0x5B,
            TriggerKey::RightWin => 0x5C,
            TriggerKey::Menu => 0x5D,  // VK_APPS
        }
    }

    /// The name used in the config file, the dialog and the probes.
    pub fn name(self) -> (r: &'static str)
        ensures
            r@ == trigger_name(self),
    {
        match self {
            TriggerKey::LeftAlt => "LeftAlt",
            TriggerKey::RightAlt => "RightAlt",
            TriggerKey::LeftCtrl => "LeftCtrl",
            TriggerKey::RightCtrl => "RightCtrl",
            TriggerKey::LeftShift => "LeftShift",
            TriggerKey::RightShift => "RightShift",
            TriggerKey::LeftWin => "LeftWin",
            TriggerKey::RightWin => "RightWin",
            TriggerKey::Menu => "Menu",
        }
    }

    /// Parse a name, for the probes' command lines. Case-insensitive, because a
    /// command line is typed in a hurry; the config file stays strict.
    pub fn from_name(s: &str) -> (r: Option<Self>)
        ensures
            r == trigger_named(s@),
            r matches Some(k) ==> same_ignoring_ascii_case(trigger_name(k), s@),
            r is None <==> forall|k: TriggerKey| !same_ignoring_ascii_case(trigger_name(k), s@),
    {
        let all = TriggerKey::all();
        let mut i: usize = 0;
        while i < 9
            invariant
                all@ == trigger_list(),
                i <= 9,
                forall|j: int| 0 <= j < i ==> !same_ignoring_ascii_case(trigger_name(all@[j]), s@),
            decreases 9 - i,
        {
            let k = all[i];
            if eq_ignore_ascii_case(k.name(), s) {
                proof {
                    let c = choose|j: TriggerKey| same_ignoring_ascii_case(trigger_name(j), s@);
                    lemma_same_ignoring_case_joins(trigger_name(c), trigger_name(k), s@);
                    law_trigger_names_are_distinct(c, k);
                }
                return Some(k);
            }
            i += 1;
        }
        proof {
            assert forall|k: TriggerKey| !same_ignoring_ascii_case(trigger_name(k), s@) by {
                lemma_every_trigger_is_listed(k);
            }
        }
        None
    }
}

/// The trigger a command line means by `s`, whatever its case.
pub open spec fn trigger_named(s: Seq<char>) -> Option<TriggerKey> {
    if exists|k: TriggerKey| same_ignoring_ascii_case(trigger_name(k), s) {
        Some(choose|k: TriggerKey| same_ignoring_ascii_case(trigger_name(k), s))
    } else {
        None
    }
}

/// Two spellings that both match a third ignoring case match each other.
proof fn lemma_same_ignoring_case_joins(a: Seq<char>, b: Seq<char>, s: Seq<char>)
    requires
        same_ignoring_ascii_case(a, s),
        same_ignoring_ascii_case(b, s),
    ensures
        same_ignoring_ascii_case(a, b),
{
    assert forall|i: int| 0 <= i < a.len() implies crate::text::ascii_lower(a[i]) == crate::text::ascii_lower(
        b[i],
    ) by {
        assert(crate::text::ascii_lower(a[i]) == crate::text::ascii_lower(s[i]));
        assert(crate::text::ascii_lower(b[i]) == crate::text::ascii_lower(s[i]));
    }
}

/// The names of every trigger, in `trigger_list` order.
pub open spec fn trigger_names_view() -> Seq<Seq<char>> {
    trigger_list().map_values(|k: TriggerKey| trigger_name(k))
}

/// The names of every trigger, in `TriggerKey::all` order.
pub fn trigger_names() -> (r: Vec<&'static str>)
    ensures
        crate::text::strs_view(r@) == trigger_names_view(),
{
    let all = TriggerKey::all();
    let mut names: Vec<&'static str> = Vec::new();
    let mut i: usize = 0;
    while i < 9
        invariant
            all@ == trigger_list(),
            i <= 9,
            names@.len() == i,
            forall|j: int| 0 <= j < i ==> (#[trigger] names@[j])@ == trigger_name(all@[j]),
        decreases 9 - i,
    {
        names.push(all[i].name());
        i += 1;
    }
    assert(crate::text::strs_view(names@) =~= trigger_names_view());
    names
}

/// Every trigger appears in `trigger_list`, at its own index.
pub proof fn lemma_every_trigger_is_listed(k: TriggerKey)
    ensures
        exists|i: int| 0 <= i < 9 && trigger_list()[i] == k,
{
    let all = trigger_list();
    match k {
        TriggerKey::LeftAlt => assert(all[0] == k),
        TriggerKey::RightAlt => assert(all[1] == k),
        TriggerKey::LeftCtrl => assert(all[2] == k),
        TriggerKey::RightCtrl => assert(all[3] == k),
        TriggerKey::LeftShift => assert(all[4] == k),
        TriggerKey::RightShift => assert(all[5] == k),
        TriggerKey::LeftWin => assert(all[6] == k),
        TriggerKey::RightWin => assert(all[7] == k),
        TriggerKey::Menu => assert(all[8] == k),
    }
}

proof fn lemma_names_revealed()
    ensures
        "LeftAlt"@ == seq!['L', 'e', 'f', 't', 'A', 'l', 't'],
        "RightAlt"@ == seq!['R', 'i', 'g', 'h', 't', 'A', 'l', 't'],
        "LeftCtrl"@ == seq!['L', 'e', 'f', 't', 'C', 't', 'r', 'l'],
        "RightCtrl"@ == seq!['R', 'i', 'g', 'h', 't', 'C', 't', 'r', 'l'],
        "LeftShift"@ == seq!['L', 'e', 'f', 't', 'S', 'h', 'i', 'f', 't'],
        "RightShift"@ == seq!['R', 'i', 'g', 'h', 't', 'S', 'h', 'i', 'f', 't'],
        "LeftWin"@ == seq!['L', 'e', 'f', 't', 'W', 'i', 'n'],
        "RightWin"@ == seq!['R', 'i', 'g', 'h', 't', 'W', 'i', 'n'],
        "Menu"@ == seq!['M', 'e', 'n', 'u'],
        "None"@ == seq!['N', 'o', 'n', 'e'],
{
    reveal_strlit("LeftAlt");
    reveal_strlit("RightAlt");
    reveal_strlit("LeftCtrl");
    reveal_strlit("RightCtrl");
    reveal_strlit("LeftShift");
    reveal_strlit("RightShift");
    reveal_strlit("LeftWin");
    reveal_strlit("RightWin");
    reveal_strlit("Menu");
    reveal_strlit("None");
    assert("LeftAlt"@ =~= seq!['L', 'e', 'f', 't', 'A', 'l', 't']);
    assert("RightAlt"@ =~= seq!['R', 'i', 'g', 'h', 't', 'A', 'l', 't']);
    assert("LeftCtrl"@ =~= seq!['L', 'e', 'f', 't', 'C', 't', 'r', 'l']);
    assert("RightCtrl"@ =~= seq!['R', 'i', 'g', 'h', 't', 'C', 't', 'r', 'l']);
    assert("LeftShift"@ =~= seq!['L', 'e', 'f', 't', 'S', 'h', 'i', 'f', 't']);
    assert("RightShift"@ =~= seq!['R', 'i', 'g', 'h', 't', 'S', 'h', 'i', 'f', 't']);
    assert("LeftWin"@ =~= seq!['L', 'e', 'f', 't', 'W', 'i', 'n']);
    assert("RightWin"@ =~= seq!['R', 'i', 'g', 'h', 't', 'W', 'i', 'n']);
    assert("Menu"@ =~= seq!['M', 'e', 'n', 'u']);
    assert("None"@ =~= seq!['N', 'o', 'n', 'e']);
}

/// No two triggers share a name, not even when case is ignored, and no
/// trigger is called `NONE_NAME`, even ignoring case.
pub proof fn law_trigger_names_are_distinct(a: TriggerKey, b: TriggerKey)
    ensures
        a != b ==> !same_ignoring_ascii_case(trigger_name(a), trigger_name(b)),
        !same_ignoring_ascii_case(trigger_name(a), NONE_NAME@),
{
    lemma_names_revealed();
    let na = trigger_name(a);
    let nb = trigger_name(b);
    let nn = NONE_NAME@;
    if a != b && same_ignoring_ascii_case(na, nb) {
        assert(crate::text::ascii_lower(na[0]) == crate::text::ascii_lower(nb[0]));
        assert(crate::text::ascii_lower(na[4]) == crate::text::ascii_lower(nb[4]));
        assert(crate::text::ascii_lower(na[5]) == crate::text::ascii_lower(nb[5]));
    }
    if same_ignoring_ascii_case(na, nn) {
        assert(crate::text::ascii_lower(na[0]) == crate::text::ascii_lower(nn[0]));
        assert(crate::text::ascii_lower(na[1]) == crate::text::ascii_lower(nn[1]));
    }
}

/// No two triggers share a virtual-key code.
pub proof fn law_trigger_vks_are_distinct(a: TriggerKey, b: TriggerKey)
    ensures
        a != b ==> trigger_vk(a) != trigger_vk(b),
{
}

/// A trigger's own name reads back as that trigger, through the probes'
/// case-insensitive parser and through the config file's strict one.
pub proof fn law_trigger_names_round_trip(k: TriggerKey)
    ensures
        forall|j: TriggerKey| same_ignoring_ascii_case(trigger_name(j), trigger_name(k)) ==> j == k,
        slot_from_text(trigger_name(k)) == Some(Some(k)),
        slot_from_text(NONE_NAME@) == Some(None::<TriggerKey>),
{
    assert forall|j: TriggerKey| same_ignoring_ascii_case(trigger_name(j), trigger_name(k)) implies j
        == k by {
        law_trigger_names_are_distinct(j, k);
    }
    law_trigger_names_are_distinct(k, k);
    lemma_names_revealed();
    assert(trigger_name(k) != NONE_NAME@) by {
        if trigger_name(k) == NONE_NAME@ {
            assert(same_ignoring_ascii_case(trigger_name(k), NONE_NAME@));
        }
    }
    let c = choose|j: TriggerKey| trigger_name(j) == trigger_name(k);
    law_trigger_names_are_distinct(c, k);
}

/// What a trigger slot is called, whether or not it holds a key.
pub fn slot_name(slot: Option<TriggerKey>) -> (r: &'static str)
    ensures
        r@ == slot_text(slot),
{
    match slot {
        Some(key) => key.name(),
        None => NONE_NAME,
    }
}

/// Read a trigger slot from its config-file spelling.
///
/// Case-sensitive, unlike `TriggerKey::from_name`: a config file is edited
/// slowly and read strictly, where a command line is typed fast.
pub fn slot_from_name(s: &str) -> (r: Option<Option<TriggerKey>>)
    ensures
        r == slot_from_text(s@),
{
    if str_eq(s, NONE_NAME) {
        return Some(None);
    }
    let all = TriggerKey::all();
    let mut i: usize = 0;
    while i < 9
        invariant
            all@ == trigger_list(),
            i <= 9,
            s@ != NONE_NAME@,
            forall|j: int| 0 <= j < i ==> trigger_name(all@[j]) != s@,
        decreases 9 - i,
    {
        let k = all[i];
        if str_eq(k.name(), s) {
            proof {
                let c = choose|j: TriggerKey| trigger_name(j) == s@;
                law_trigger_names_are_distinct(c, k);
                law_trigger_names_are_distinct(k, k);
            }
            return Some(Some(k));
        }
        i += 1;
    }
    proof {
        assert forall|k: TriggerKey| trigger_name(k) != s@ by {
            lemma_every_trigger_is_listed(k);
        }
    }
    None
}

#[derive(Debug, Clone, Copy, PartialEq, Eq, Structural)]
pub struct Settings {
    /// Solo press of this key turns the IME off. `None` switches it off.
    pub left_trigger: Option<TriggerKey>,
    /// Solo press of this key turns the IME on. `None` switches it off.
    ///
    /// Wanting one direction and not the other is ordinary, so both slots may
    /// be empty, including both at once.
    pub right_trigger: Option<TriggerKey>,
    /// A press shorter than this counts as a solo press.
    pub threshold_ms: u64,
    /// The key injected to stop a solo press from looking solo.
    pub dummy_vk: u16,
    /// Show on the tray icon whether the IME is on. Off unless asked for:
    /// reading the IME means asking the foreground application several
    /// times a second for as long as the app runs.
    pub show_ime_state: bool,
}

/// Left Alt turns the IME off, right Alt turns it on, 400ms, dummy `0x07`.
pub open spec fn default_settings() -> Settings {
    Settings {
        left_trigger: Some(TriggerKey::LeftAlt),
        right_trigger: Some(TriggerKey::RightAlt),
        threshold_ms: 400,
        dummy_vk: 0x07,
        show_ime_state: false,
    }
}

impl Default for Settings {
    fn default() -> (s: Self)
        ensures
            s == default_settings(),
    {
        Settings {
            left_trigger: Some(TriggerKey::LeftAlt),
            right_trigger: Some(TriggerKey::RightAlt),
            threshold_ms: 400,
            dummy_vk: 0x07,
            show_ime_state: false,
        }
    }
}

/// Everything the hook thread needs, in one message-sized value.
#[derive(Debug, Clone, Copy, PartialEq, Eq, Structural)]
pub struct Runtime {
    pub core: Config,
    pub dummy_vk: u16,
}

/// The virtual key a slot hands the state machine: the trigger's, or
/// `VK_NONE` for an empty slot.
pub open spec fn slot_vk(slot: Option<TriggerKey>) -> u16 {
    match slot {
        Some(k) => trigger_vk(k),
        None => VK_NONE,
    }
}

/// Why a settings combination will not do what it looks like it does.
#[derive(Debug, Clone, Copy, PartialEq, Eq, Structural)]
pub enum Problem {
    /// The state machine tests the left trigger first, so an equal pair makes
    /// "IME on" unreachable: every solo press would turn the IME off.
    SameTrigger(TriggerKey),
    /// The machine compares `elapsed < threshold_ms`, so zero never fires.
    ThresholdZero,
    /// Virtual key 0 is not a key.
    DummyZero,
    /// The dummy is injected as a real down and up. A key that has a
    /// solo-press behaviour of its own performs it, which is the exact thing
    /// the dummy exists to prevent.
    DummyIsTrigger(TriggerKey),
}

/// Everything about `s` that cannot work, in this order: the same key in
/// both slots, a zero threshold, then a dummy that is no key or is a trigger.
pub open spec fn problems_of(s: Settings) -> Seq<Problem> {
    let same = match (s.left_trigger, s.right_trigger) {
        (Some(l), Some(r)) => if l == r {
            seq![Problem::SameTrigger(l)]
        } else {
            Seq::empty()
        },
        _ => Seq::empty(),
    };
    let threshold = if s.threshold_ms == 0 {
        seq![Problem::ThresholdZero]
    } else {
        Seq::empty()
    };
    let dummy = if s.dummy_vk == 0 {
        seq![Problem::DummyZero]
    } else {
        match trigger_with_vk(s.dummy_vk) {
            Some(k) => seq![Problem::DummyIsTrigger(k)],
            None => Seq::empty(),
        }
    };
    same + threshold + dummy
}

/// How long a `Problem::message` may be.
///
/// The dialog shows it in a fixed two-line label, and about 44 characters fit
/// on a line at the default font. Word wrap does not fill a line evenly, so
/// the budget is well under 88.
pub const MESSAGE_BUDGET: usize = 72;

/// The sentence shown for a problem.
pub open spec fn problem_text(p: Problem) -> Seq<char> {
    match p {
        Problem::SameTrigger(k) => trigger_name(k) + " is set for both, so nothing would turn the IME on."@,
        Problem::ThresholdZero => "A threshold of 0 never fires: no press is shorter than it."@,
        Problem::DummyZero => "0x00 is not a virtual key."@,
        Problem::DummyIsTrigger(k) => trigger_name(k)
            + " acts on its own solo press, so it cannot be the dummy."@,
    }
}

impl Problem {
    /// One sentence, at most `MESSAGE_BUDGET` characters.
    pub fn message(self) -> (r: String)
        ensures
            r@ == problem_text(self),
            r@.len() <= MESSAGE_BUDGET,
    {
        proof {
            law_every_problem_fits(self);
        }
        let mut out = String::new();
        match self {
            Problem::SameTrigger(k) => {
                push_str(&mut out, k.name());
                push_str(&mut out, " is set for both, so nothing would turn the IME on.");
            },
            Problem::ThresholdZero => {
                push_str(&mut out, "A threshold of 0 never fires: no press is shorter than it.");
            },
            Problem::DummyZero => {
                push_str(&mut out, "0x00 is not a virtual key.");
            },
            Problem::DummyIsTrigger(k) => {
                push_str(&mut out, k.name());
                push_str(&mut out, " acts on its own solo press, so it cannot be the dummy.");
            },
        }
        out
    }
}

/// Every problem's sentence fits the dialog's label.
pub proof fn law_every_problem_fits(p: Problem)
    ensures
        problem_text(p).len() <= MESSAGE_BUDGET,
{
    lemma_names_revealed();
    reveal_strlit(" is set for both, so nothing would turn the IME on.");
    reveal_strlit("A threshold of 0 never fires: no press is shorter than it.");
    reveal_strlit("0x00 is not a virtual key.");
    reveal_strlit(" acts on its own solo press, so it cannot be the dummy.");
    assert(trigger_name(TriggerKey::RightShift).len() == 10);
}

impl Settings {
    pub fn runtime(&self) -> (r: Runtime)
        ensures
            r == (Runtime {
                core: Config {
                    left_trigger: slot_vk(self.left_trigger),
                    right_trigger: slot_vk(self.right_trigger),
                    threshold_ms: self.threshold_ms,
                },
                dummy_vk: self.dummy_vk,
            }),
    {
        let left = match self.left_trigger {
            Some(k) => k.vk(),
            None => VK_NONE,
        };
        let right = match self.right_trigger {
            Some(k) => k.vk(),
            None => VK_NONE,
        };
        Runtime {
            core: Config { left_trigger: left, right_trigger: right, threshold_ms: self.threshold_ms },
            dummy_vk: self.dummy_vk,
        }
    }

    /// Everything about these settings that cannot work.
    ///
    /// Only things that cannot work. An unusual value is not one of them: the
    /// measured bands are written in the config file's comments, and a front
    /// end that also nagged about them would be arguing with the user over the
    /// one number they came here to tune.
    pub fn problems(&self) -> (r: Vec<Problem>)
        ensures
            r@ == problems_of(*self),
    {
        let mut found: Vec<Problem> = Vec::new();
        // Two empty slots are not a clash: that is the inert state, which is
        // allowed. Only two real keys colliding costs the user a direction.
        match (self.left_trigger, self.right_trigger) {
            (Some(left), Some(right)) => {
                if left == right {
                    found.push(Problem::SameTrigger(left));
                }
            },
            _ => {},
        }
        let ghost after_same = found@;
        if self.threshold_ms == 0 {
            found.push(Problem::ThresholdZero);
        }
        let ghost after_threshold = found@;
        if self.dummy_vk == 0 {
            found.push(Problem::DummyZero);
        } else {
            let hit = trigger_for_vk(self.dummy_vk);
            match hit {
                Some(k) => found.push(Problem::DummyIsTrigger(k)),
                None => {},
            }
        }
        assert(found@ =~= problems_of(*self));
        found
    }
}

/// The trigger whose virtual-key code is `vk`, if any.
pub fn trigger_for_vk(vk: u16) -> (r: Option<TriggerKey>)
    ensures
        r == trigger_with_vk(vk),
{
    let all = TriggerKey::all();
    let mut i: usize = 0;
    while i < 9
        invariant
            all@ == trigger_list(),
            i <= 9,
            forall|j: int| 0 <= j < i ==> trigger_vk(all@[j]) != vk,
        decreases 9 - i,
    {
        let k = all[i];
        if k.vk() == vk {
            proof {
                let c = choose|j: TriggerKey| trigger_vk(j) == vk;
                law_trigger_vks_are_distinct(c, k);
            }
            return Some(k);
        }
        i += 1;
    }
    proof {
        assert forall|k: TriggerKey| trigger_vk(k) != vk by {
            lemma_every_trigger_is_listed(k);
        }
    }
    None
}

/// The defaults have nothing wrong with them.
pub proof fn law_defaults_have_no_problems()
    ensures
        problems_of(default_settings()) == Seq::<Problem>::empty(),
{
    assert(trigger_with_vk(0x07) is None) by {
        assert forall|k: TriggerKey| trigger_vk(k) != 0x07 by {}
    }
    assert(problems_of(default_settings()) =~= Seq::<Problem>::empty());
}

/// A setting is a problem exactly when it cannot work: the same real key in
/// both slots, a zero threshold, a dummy of 0 or one that is a trigger. Two
/// empty slots, any non-zero threshold, and any other dummy are accepted.
pub proof fn law_problems_are_exactly_what_cannot_work(s: Settings)
    ensures
        problems_of(s).len() == 0 <==> (!(s.left_trigger is Some && s.left_trigger == s.right_trigger)
            && s.threshold_ms != 0 && s.dummy_vk != 0 && forall|k: TriggerKey|
            trigger_vk(k) != s.dummy_vk),
{
    if exists|k: TriggerKey| trigger_vk(k) == s.dummy_vk {
        let k = choose|k: TriggerKey| trigger_vk(k) == s.dummy_vk;
        assert(trigger_with_vk(s.dummy_vk) is Some);
    }
}

// ---------------------------------------------------------------------------
// The config file as text
// ---------------------------------------------------------------------------

/// Greedy wrapping of a comma-separated list, from item `i` on.
///
/// `done` holds the finished lines, each followed by a newline; `line` is the
/// line being filled, which holds no item yet when `empty`. An item goes on
/// the current line, after a space, unless that would take the line past
/// `width`; then the line is finished and the item starts a line of its own
/// after `cont`. Every item but the last carries a comma.
pub open spec fn wrap_from(
    items: Seq<Seq<char>>,
    i: int,
    done: Seq<char>,
    line: Seq<char>,
    empty: bool,
    cont: Seq<char>,
    width: int,
) -> Seq<char>
    decreases items.len() - i,
{
    if i < 0 || i >= items.len() {
        done + line
    } else {
        let comma = i + 1 < items.len();
        let w = items[i].len() + if comma {
            1int
        } else {
            0int
        };
        let wrap = !empty && line.len() + 1 + w > width;
        let done2 = if wrap {
            done + line + seq!['\n']
        } else {
            done
        };
        let line2 = if wrap {
            cont
        } else if !empty {
            line.push(' ')
        } else {
            line
        };
        let line3 = line2 + items[i] + if comma {
            seq![',']
        } else {
            Seq::empty()
        };
        wrap_from(items, i + 1, done2, line3, false, cont, width)
    }
}

/// `items` as a comma-separated list, wrapped at `width` characters: the
/// first line starts with `first`, every later one with `cont`.
pub open spec fn wrapped_list(items: Seq<Seq<char>>, first: Seq<char>, cont: Seq<char>, width: int) -> Seq<
    char,
> {
    wrap_from(items, 0, Seq::empty(), first, true, cont, width)
}

/// The names listed in the config file's comment: every trigger, then
/// `NONE_NAME` last, because it answers a different question than the keys
/// do: not "which key", but "neither".
pub open spec fn listed_names() -> Seq<Seq<char>> {
    trigger_list().map_values(|k: TriggerKey| trigger_name(k)).push(NONE_NAME@)
}

/// The `# One of: ...` comment listing every trigger.
pub open spec fn trigger_comment_text() -> Seq<char> {
    wrapped_list(listed_names(), "# One of: "@, "#         "@, 76)
}

/// Every item's length plus two, the most it can add to a line (a space
/// before it and a comma after it), summed.
pub open spec fn items_room(items: Seq<Seq<char>>) -> nat
    decreases items.len(),
{
    if items.len() == 0 {
        0
    } else {
        items_room(items.drop_last()) + items.last().len() + 2
    }
}

proof fn lemma_items_room_prefix(items: Seq<Seq<char>>, i: int)
    requires
        0 <= i <= items.len(),
    ensures
        items_room(items.subrange(0, i)) <= items_room(items),
    decreases items.len() - i,
{
    if i < items.len() {
        lemma_items_room_prefix(items, i + 1);
        assert(items.subrange(0, i + 1).drop_last() =~= items.subrange(0, i));
    } else {
        assert(items.subrange(0, i) =~= items);
    }
}

proof fn lemma_items_room_bounded(items: Seq<Seq<char>>, m: nat)
    requires
        forall|j: int| 0 <= j < items.len() ==> (#[trigger] items[j]).len() <= m,
    ensures
        items_room(items) <= items.len() * (m + 2),
    decreases items.len(),
{
    if items.len() > 0 {
        let rest = items.drop_last();
        assert forall|j: int| 0 <= j < rest.len() implies (#[trigger] rest[j]).len() <= m by {
            assert(rest[j] == items[j]);
        }
        lemma_items_room_bounded(rest, m);
        let n = items.len();
        assert((n - 1) * (m + 2) + (m + 2) == n * (m + 2)) by (nonlinear_arith);
    }
}

/// Wrap `items` greedily into lines of at most `width` characters (a single
/// item longer than that gets a line to itself), joined by newlines. The
/// lengths involved have to fit in a `usize`.
pub fn wrap_list(items: &Vec<&str>, first: &str, cont: &str, width: usize) -> (r: String)
    requires
        first@.len() + cont@.len() + items_room(items@.map_values(|s: &str| s@)) <= usize::MAX,
    ensures
        r@ == wrapped_list(items@.map_values(|s: &str| s@), first@, cont@, width as int),
{
    let ghost names = items@.map_values(|s: &str| s@);
    let mut done = String::new();
    let mut line = String::new();
    push_str(&mut line, first);
    let mut line_len: usize = first.unicode_len();
    let cont_len: usize = cont.unicode_len();
    let mut empty = true;
    let mut i: usize = 0;
    while i < items.len()
        invariant
            names == items@.map_values(|s: &str| s@),
            first@.len() + cont@.len() + items_room(names) <= usize::MAX,
            cont_len == cont@.len(),
            i <= items.len(),
            line_len == line@.len(),
            line_len <= first@.len() + cont@.len() + items_room(names.subrange(0, i as int)),
            wrap_from(names, i as int, done@, line@, empty, cont@, width as int) == wrapped_list(
                names,
                first@,
                cont@,
                width as int,
            ),
        decreases items.len() - i,
    {
        let name = items[i];
        let name_len = name.unicode_len();
        proof {
            lemma_items_room_prefix(names, i + 1);
            assert(names.subrange(0, i + 1).drop_last() =~= names.subrange(0, i as int));
            assert(names[i as int] == name@);
        }
        let comma = i + 1 < items.len();
        let w = name_len + if comma {
            1
        } else {
            0
        };
        assert(names[i as int] == name@);
        let ghost done0 = done@;
        let ghost line0 = line@;
        let ghost empty0 = empty;
        if !empty && line_len + 1 + w > width {
            push_str(&mut done, line.as_str());
            crate::text::push_char(&mut done, '\n');
            line = String::new();
            push_str(&mut line, cont);
            line_len = cont_len;
            empty = true;
        } else if !empty {
            crate::text::push_char(&mut line, ' ');
            line_len += 1;
        }
        push_str(&mut line, name);
        line_len += name_len;
        if comma {
            crate::text::push_char(&mut line, ',');
            line_len += 1;
        }
        empty = false;
        proof {
            let wrap = !empty0 && line0.len() + 1 + w > width;
            let comma_s = if comma {
                seq![',']
            } else {
                Seq::<char>::empty()
            };
            let line2 = if wrap {
                cont@
            } else if !empty0 {
                line0.push(' ')
            } else {
                line0
            };
            assert(line@ =~= line2 + name@ + comma_s);
            if wrap {
                assert(done@ =~= done0 + line0 + seq!['\n']);
            }
            assert(names.len() == items@.len());
        }
        i += 1;
    }
    push_str(&mut done, line.as_str());
    done
}

/// The `# One of: ...` comment listing every trigger, wrapped.
///
/// Generated from `TriggerKey::all` rather than written out, so a tenth
/// trigger cannot leave the file telling the user about nine.
pub fn trigger_name_comment() -> (r: String)
    ensures
        r@ == trigger_comment_text(),
{
    let all = TriggerKey::all();
    let mut names: Vec<&str> = Vec::new();
    let mut i: usize = 0;
    while i < 9
        invariant
            all@ == trigger_list(),
            i <= 9,
            names@.len() == i,
            forall|j: int| 0 <= j < i ==> (#[trigger] names@[j])@ == trigger_name(all@[j]),
        decreases 9 - i,
    {
        names.push(all[i].name());
        i += 1;
    }
    names.push(NONE_NAME);
    proof {
        lemma_names_revealed();
        assert(names@.map_values(|s: &str| s@) =~= listed_names());
        let view = names@.map_values(|s: &str| s@);
        assert forall|j: int| 0 <= j < view.len() implies (#[trigger] view[j]).len() <= 4096 by {
            assert(view[j] == names@[j]@);
            if j < 9 {
                lemma_every_trigger_is_listed(all@[j]);
            }
        }
        lemma_items_room_bounded(view, 4096);
        assert(view.len() * (4096nat + 2) == 40980);
        reveal_strlit("# One of: ");
        reveal_strlit("#         ");
    }
    wrap_list(&names, "# One of: ", "#         ", 76)
}

/// The opening of the config file, up to the list of trigger names.
pub const HEADER: &'static str = "# altoggle configuration.\n#\n# \"Settings...\" on the tray menu edits this file, and rewrites it whole when\n# you press OK or Apply: the comments below survive, anything you add does not.\n# Editing it by hand works too, but only takes effect at the next start.\n\n# Which key turns the IME off, and which turns it on.\n";

/// What follows the list of trigger names, up to the left trigger's value.
pub const BEFORE_LEFT: &'static str = "\n#\n# Whichever key you pick gives up its usual solo-press behaviour: Alt the menu\n# bar, Win the start menu, Menu the context menu. Holding the key past\n# threshold_ms below still gets you the original behaviour.\n#\n# \"None\" leaves that direction alone, for when you only want one of the two.\n# Setting both to \"None\" is allowed and leaves the app doing nothing.\n#\n# \"Menu\" is the key with the menu glyph next to right Ctrl, not Alt.\n#\n# Note that many Japanese laptops and JIS keyboards have no right Win key, and\n# some have no Menu key. Mixing sides is fine, for example LeftWin and RightAlt.\nleft_trigger = \"";

/// Between the left and the right trigger's values.
pub const BEFORE_RIGHT: &'static str = "\"\nright_trigger = \"";

/// Between the right trigger's value and the threshold.
pub const BEFORE_THRESHOLD: &'static str = "\"\n\n# A press shorter than this counts as a solo press.\n#\n# Measured: deliberate solo presses reach 215ms, auto-repeat starts around\n# 500ms. Below ~250ms you will miss presses you meant; above ~500ms a held key\n# starts firing.\n#\n# This threshold is also the escape hatch: hold the key past it and the press\n# falls through to Windows untouched, so Alt still opens the menu bar.\nthreshold_ms = ";

/// Between the threshold and the dummy key's hex digits.
pub const BEFORE_DUMMY: &'static str = "\n\n# The key injected to make a solo press stop looking solo, which is what stops\n# Windows from opening the menu bar. A virtual-key code, in hex to match the\n# dialog and the probes' --dummy flag. 0x07 is undefined and was harmless in\n# every application tested; 0x7C-0x87 (VK_F13 to VK_F24) also work.\ndummy_vk = 0x";

/// Between the dummy key's hex digits and the IME display switch.
pub const BEFORE_SHOW_IME_STATE: &'static str = "\n\n# Show the IME state on the tray icon: a Latin \"a\" when the IME is off, a\n# hiragana one when it is on, an asterisk when the foreground application will\n# not say. Off by default, because reading the IME means asking the foreground\n# application several times a second for as long as altoggle runs.\nshow_ime_state = ";

/// How the file writes a switch.
pub open spec fn bool_text(b: bool) -> Seq<char> {
    if b {
        "true"@
    } else {
        "false"@
    }
}

/// The end of the config file.
pub const END: &'static str = "\n";

/// The whole config file, comments and all, for `s`.
pub open spec fn config_text(s: Settings) -> Seq<char> {
    HEADER@ + trigger_comment_text() + BEFORE_LEFT@ + slot_text(s.left_trigger) + BEFORE_RIGHT@
        + slot_text(s.right_trigger) + BEFORE_THRESHOLD@ + decimal(s.threshold_ms as nat)
        + BEFORE_DUMMY@ + hex2(s.dummy_vk as nat) + BEFORE_SHOW_IME_STATE@ + bool_text(s.show_ime_state)
        + END@
}

/// The whole config file, comments and all, for these values.
///
/// The comments live here rather than in the file because a serializer cannot
/// emit them, and they are most of the value of a file you edit by hand. The
/// consequence is that saving regenerates the file: the explanations survive,
/// anything the user added to it does not.
pub fn render(s: &Settings) -> (r: String)
    ensures
        r@ == config_text(*s),
{
    let mut out = String::new();
    push_str(&mut out, HEADER);
    let comment = trigger_name_comment();
    push_str(&mut out, comment.as_str());
    push_str(&mut out, BEFORE_LEFT);
    push_str(&mut out, slot_name(s.left_trigger));
    push_str(&mut out, BEFORE_RIGHT);
    push_str(&mut out, slot_name(s.right_trigger));
    push_str(&mut out, BEFORE_THRESHOLD);
    push_decimal(&mut out, s.threshold_ms);
    push_str(&mut out, BEFORE_DUMMY);
    push_hex2(&mut out, s.dummy_vk as u64);
    push_str(&mut out, BEFORE_SHOW_IME_STATE);
    push_str(&mut out, if s.show_ime_state {
        "true"
    } else {
        "false"
    });
    proof {
        reveal_strlit("true");
        reveal_strlit("false");
    }
    push_str(&mut out, END);
    out
}

// ---------------------------------------------------------------------------
// Reading the config file
// ---------------------------------------------------------------------------

/// The keys the file may hold, for the unknown-key message.
pub const EXPECTED_KEYS: &'static str = "`left_trigger`, `right_trigger`, `threshold_ms`, `dummy_vk`, `show_ime_state`";

/// The message for a key of the wrong kind.
pub open spec fn wrong_type_text(key: Seq<char>, wanted: Seq<char>) -> Seq<char> {
    "invalid type for `"@ + key + "`: expected "@ + wanted
}

/// The message for an integer out of a key's range.
pub open spec fn out_of_range_text(key: Seq<char>, wanted: Seq<char>) -> Seq<char> {
    "invalid value for `"@ + key + "`: expected "@ + wanted
}

/// What a trigger slot reads as: one of the spellings `slot_text` writes.
pub open spec fn read_slot(key: Seq<char>, v: TomlScalar) -> Result<Option<TriggerKey>, Seq<char>> {
    match v {
        TomlScalar::Str(t) => match slot_from_text(t) {
            Some(slot) => Ok(slot),
            None => Err(t + " is not a trigger key"@),
        },
        _ => Err(wrong_type_text(key, "a string"@)),
    }
}

/// Apply one key of the file on top of `acc`. Each key may hold only its own
/// kind of value, and an unknown key is refused rather than ignored.
pub open spec fn read_entry(acc: Settings, key: Seq<char>, v: TomlScalar) -> Result<Settings, Seq<char>> {
    if key == "left_trigger"@ {
        match read_slot(key, v) {
            Ok(slot) => Ok(Settings { left_trigger: slot, ..acc }),
            Err(e) => Err(e),
        }
    } else if key == "right_trigger"@ {
        match read_slot(key, v) {
            Ok(slot) => Ok(Settings { right_trigger: slot, ..acc }),
            Err(e) => Err(e),
        }
    } else if key == "threshold_ms"@ {
        match v {
            TomlScalar::Int(i) => if 0 <= i <= u64::MAX {
                Ok(Settings { threshold_ms: i as u64, ..acc })
            } else {
                Err(out_of_range_text(key, "a non-negative integer"@))
            },
            _ => Err(wrong_type_text(key, "an integer"@)),
        }
    } else if key == "dummy_vk"@ {
        match v {
            TomlScalar::Int(i) => if 0 <= i <= u16::MAX {
                Ok(Settings { dummy_vk: i as u16, ..acc })
            } else {
                Err(out_of_range_text(key, "an integer from 0 to 0xFFFF"@))
            },
            _ => Err(wrong_type_text(key, "an integer"@)),
        }
    } else if key == "show_ime_state"@ {
        match v {
            TomlScalar::Bool(b) => Ok(Settings { show_ime_state: b, ..acc }),
            _ => Err(wrong_type_text(key, "a boolean"@)),
        }
    } else {
        Err("unknown field `"@ + key + "`, expected one of "@ + EXPECTED_KEYS@)
    }
}

/// Apply every key in turn, starting from `acc`; the first refusal wins.
pub open spec fn read_entries(acc: Settings, es: Seq<(Seq<char>, TomlScalar)>) -> Result<Settings, Seq<char>>
    decreases es.len(),
{
    if es.len() == 0 {
        Ok(acc)
    } else {
        match read_entry(acc, es[0].0, es[0].1) {
            Ok(next) => read_entries(next, es.drop_first()),
            Err(e) => Err(e),
        }
    }
}

/// What a config file says: every key it holds applied on top of the
/// defaults, so a key left out keeps its default; or why it cannot be read.
pub open spec fn settings_from_text(text: Seq<char>) -> Result<Settings, Seq<char>> {
    match toml_table(text) {
        Ok(es) => read_entries(default_settings(), es),
        Err(e) => Err(e),
    }
}

/// The plain value of a settings-or-message result.
pub open spec fn settings_result_view(r: Result<Settings, String>) -> Result<Settings, Seq<char>> {
    match r {
        Ok(s) => Ok(s),
        Err(m) => Err(m@),
    }
}

fn wrong_type(key: &str, wanted: &str) -> (r: String)
    ensures
        r@ == wrong_type_text(key@, wanted@),
{
    let mut m = String::new();
    push_str(&mut m, "invalid type for `");
    push_str(&mut m, key);
    push_str(&mut m, "`: expected ");
    push_str(&mut m, wanted);
    m
}

fn out_of_range(key: &str, wanted: &str) -> (r: String)
    ensures
        r@ == out_of_range_text(key@, wanted@),
{
    let mut m = String::new();
    push_str(&mut m, "invalid value for `");
    push_str(&mut m, key);
    push_str(&mut m, "`: expected ");
    push_str(&mut m, wanted);
    m
}

fn read_slot_value(key: &str, v: &TomlValue) -> (r: Result<Option<TriggerKey>, String>)
    ensures
        match (r, read_slot(key@, v@)) {
            (Ok(a), Ok(b)) => a == b,
            (Err(a), Err(b)) => a@ == b,
            _ => false,
        },
{
    match v {
        TomlValue::Str(t) => match slot_from_name(t.as_str()) {
            Some(slot) => Ok(slot),
            None => {
                let mut m = String::new();
                push_str(&mut m, t.as_str());
                push_str(&mut m, " is not a trigger key");
                Err(m)
            },
        },
        _ => Err(wrong_type(key, "a string")),
    }
}

fn read_one(acc: Settings, e: &TomlEntry) -> (r: Result<Settings, String>)
    ensures
        settings_result_view(r) == read_entry(acc, e.key@, e.value@),
{
    let key = e.key.as_str();
    if str_eq(key, "left_trigger") {
        match read_slot_value(key, &e.value) {
            Ok(slot) => Ok(Settings { left_trigger: slot, ..acc }),
            Err(m) => Err(m),
        }
    } else if str_eq(key, "right_trigger") {
        match read_slot_value(key, &e.value) {
            Ok(slot) => Ok(Settings { right_trigger: slot, ..acc }),
            Err(m) => Err(m),
        }
    } else if str_eq(key, "threshold_ms") {
        match &e.value {
            TomlValue::Int(i) => if *i >= 0 {
                Ok(Settings { threshold_ms: *i as u64, ..acc })
            } else {
                Err(out_of_range(key, "a non-negative integer"))
            },
            _ => Err(wrong_type(key, "an integer")),
        }
    } else if str_eq(key, "dummy_vk") {
        match &e.value {
            TomlValue::Int(i) => if 0 <= *i && *i <= 0xFFFF {
                Ok(Settings { dummy_vk: *i as u16, ..acc })
            } else {
                Err(out_of_range(key, "an integer from 0 to 0xFFFF"))
            },
            _ => Err(wrong_type(key, "an integer")),
        }
    } else if str_eq(key, "show_ime_state") {
        match &e.value {
            TomlValue::Bool(b) => Ok(Settings { show_ime_state: *b, ..acc }),
            _ => Err(wrong_type(key, "a boolean")),
        }
    } else {
        let mut m = String::new();
        push_str(&mut m, "unknown field `");
        push_str(&mut m, key);
        push_str(&mut m, "`, expected one of ");
        push_str(&mut m, EXPECTED_KEYS);
        Err(m)
    }
}

impl Settings {
    /// Read a config file's text.
    ///
    /// Every key is optional and falls back to its default; a key the file
    /// may not hold is an error rather than silently ignored, and a trigger
    /// is spelled exactly as `slot_name` writes it.
    pub fn from_toml(text: &str) -> (r: Result<Settings, String>)
        ensures
            settings_result_view(r) == settings_from_text(text@),
    {
        match parse_table(text) {
            Err(e) => Err(e),
            Ok(entries) => Settings::from_entries(&entries),
        }
    }

    /// Read the keys of a parsed config file, in the order the parser hands
    /// them over: each applied on top of the defaults, the first refusal
    /// wins.
    pub fn from_entries(entries: &Vec<TomlEntry>) -> (r: Result<Settings, String>)
        ensures
            settings_result_view(r) == read_entries(
                default_settings(),
                crate::toml_doc::entries_view(entries@),
            ),
    {
        let ghost es = crate::toml_doc::entries_view(entries@);
        let mut acc = Settings::default();
        let mut i: usize = 0;
        assert(es.subrange(0, es.len() as int) =~= es);
        while i < entries.len()
            invariant
                es == crate::toml_doc::entries_view(entries@),
                i <= entries.len(),
                read_entries(acc, es.subrange(i as int, es.len() as int)) == read_entries(
                    default_settings(),
                    es,
                ),
            decreases entries.len() - i,
        {
            let ghost rest = es.subrange(i as int, es.len() as int);
            assert(rest[0] == entries@[i as int]@);
            assert(rest.drop_first() =~= es.subrange(i + 1, es.len() as int));
            assert(rest.len() > 0);
            assert(read_entries(acc, rest) == match read_entry(acc, rest[0].0, rest[0].1) {
                Ok(next) => read_entries(next, rest.drop_first()),
                Err(e) => Err(e),
            });
            match read_one(acc, &entries[i]) {
                Ok(next) => acc = next,
                Err(m) => {
                    return Err(m);
                },
            }
            i += 1;
        }
        assert(es.subrange(i as int, es.len() as int) =~= Seq::<(Seq<char>, TomlScalar)>::empty());
        Ok(acc)
    }
}

/// The outcome of loading, so the caller can log it rather than this module
/// guessing how to report.
#[derive(Debug)]
pub enum Loaded {
    /// Parsed from an existing file.
    Existing(Settings),
    /// No file existed; a commented default was written.
    Created(Settings),
    /// Something went wrong. Defaults are in use.
    Failed(Settings, String),
}

impl Loaded {
    /// The settings in use, whatever happened.
    pub fn settings(&self) -> (r: Settings)
        ensures
            r == match self {
                Loaded::Existing(s) => *s,
                Loaded::Created(s) => *s,
                Loaded::Failed(s, _) => *s,
            },
    {
        match self {
            Loaded::Existing(s) => *s,
            Loaded::Created(s) => *s,
            Loaded::Failed(s, _) => *s,
        }
    }
}

/// What loading makes of the text of an existing file at `path`: its
/// settings, or the defaults and why the file was refused.
///
/// A broken file never stops the app from running: losing the ability to
/// type is a worse outcome than ignoring a bad setting.
pub fn loaded_from_text(path: &str, text: &str) -> (r: Loaded)
    ensures
        match settings_from_text(text@) {
            Ok(s) => r == Loaded::Existing(s),
            Err(e) => r matches Loaded::Failed(d, m) && d == default_settings() && m@ == path@
                + " is invalid: "@ + e,
        },
{
    match Settings::from_toml(text) {
        Ok(s) => Loaded::Existing(s),
        Err(e) => {
            let mut m = String::new();
            push_str(&mut m, path);
            push_str(&mut m, " is invalid: ");
            push_str(&mut m, e.as_str());
            Loaded::Failed(Settings::default(), m)
        },
    }
}

/// The five keys the file holds for `s`, each with the value written for it.
pub open spec fn rendered_entries(s: Settings) -> Seq<(Seq<char>, TomlScalar)> {
    seq![
        ("left_trigger"@, TomlScalar::Str(slot_text(s.left_trigger))),
        ("right_trigger"@, TomlScalar::Str(slot_text(s.right_trigger))),
        ("threshold_ms"@, TomlScalar::Int(s.threshold_ms as int)),
        ("dummy_vk"@, TomlScalar::Int(s.dummy_vk as int)),
        ("show_ime_state"@, TomlScalar::Bool(s.show_ime_state)),
    ]
}

/// Whether any entry of `es` is for `key`.
pub open spec fn has_key(es: Seq<(Seq<char>, TomlScalar)>, key: Seq<char>) -> bool {
    exists|i: int| 0 <= i < es.len() && (#[trigger] es[i]).0 == key
}

/// `acc` with each field that `es` holds a key for taken from `s`.
pub open spec fn overlay(acc: Settings, s: Settings, es: Seq<(Seq<char>, TomlScalar)>) -> Settings {
    Settings {
        left_trigger: if has_key(es, "left_trigger"@) {
            s.left_trigger
        } else {
            acc.left_trigger
        },
        right_trigger: if has_key(es, "right_trigger"@) {
            s.right_trigger
        } else {
            acc.right_trigger
        },
        threshold_ms: if has_key(es, "threshold_ms"@) {
            s.threshold_ms
        } else {
            acc.threshold_ms
        },
        dummy_vk: if has_key(es, "dummy_vk"@) {
            s.dummy_vk
        } else {
            acc.dummy_vk
        },
        show_ime_state: if has_key(es, "show_ime_state"@) {
            s.show_ime_state
        } else {
            acc.show_ime_state
        },
    }
}

proof fn lemma_key_names_differ()
    ensures
        "left_trigger"@ != "right_trigger"@,
        "left_trigger"@ != "threshold_ms"@,
        "left_trigger"@ != "dummy_vk"@,
        "right_trigger"@ != "threshold_ms"@,
        "right_trigger"@ != "dummy_vk"@,
        "threshold_ms"@ != "dummy_vk"@,
        "show_ime_state"@ != "left_trigger"@,
        "show_ime_state"@ != "right_trigger"@,
        "show_ime_state"@ != "threshold_ms"@,
        "show_ime_state"@ != "dummy_vk"@,
{
    reveal_strlit("left_trigger");
    reveal_strlit("right_trigger");
    reveal_strlit("threshold_ms");
    reveal_strlit("dummy_vk");
    reveal_strlit("show_ime_state");
    assert("show_ime_state"@[0] != "left_trigger"@[0]);
    assert("show_ime_state"@[0] != "right_trigger"@[0]);
    assert("show_ime_state"@[0] != "threshold_ms"@[0]);
    assert("show_ime_state"@[0] != "dummy_vk"@[0]);
    assert("left_trigger"@[0] != "right_trigger"@[0]);
    assert("left_trigger"@[0] != "threshold_ms"@[0]);
    assert("left_trigger"@[0] != "dummy_vk"@[0]);
    assert("right_trigger"@[0] != "threshold_ms"@[0]);
    assert("right_trigger"@[0] != "dummy_vk"@[0]);
    assert("threshold_ms"@[0] != "dummy_vk"@[0]);
}

/// Reading entries that each are one of the file's own for `s` sets exactly
/// the fields they name to `s`'s values, in any order and with repeats.
proof fn lemma_read_rendered_entries(acc: Settings, s: Settings, es: Seq<(Seq<char>, TomlScalar)>)
    requires
        forall|i: int| 0 <= i < es.len() ==> rendered_entries(s).contains(#[trigger] es[i]),
    ensures
        read_entries(acc, es) == Ok::<Settings, Seq<char>>(overlay(acc, s, es)),
    decreases es.len(),
{
    if es.len() == 0 {
        assert(overlay(acc, s, es) == acc);
    } else {
        let e = es[0];
        let rest = es.drop_first();
        let r = rendered_entries(s);
        assert(r.contains(e));
        let j = choose|j: int| 0 <= j < r.len() && r[j] == e;
        lemma_key_names_differ();
        law_trigger_names_round_trip(TriggerKey::LeftAlt);
        match s.left_trigger {
            Some(k) => law_trigger_names_round_trip(k),
            None => {},
        }
        match s.right_trigger {
            Some(k) => law_trigger_names_round_trip(k),
            None => {},
        }
        let acc1 = if j == 0 {
            Settings { left_trigger: s.left_trigger, ..acc }
        } else if j == 1 {
            Settings { right_trigger: s.right_trigger, ..acc }
        } else if j == 2 {
            Settings { threshold_ms: s.threshold_ms, ..acc }
        } else if j == 3 {
            Settings { dummy_vk: s.dummy_vk, ..acc }
        } else {
            Settings { show_ime_state: s.show_ime_state, ..acc }
        };
        assert(read_entry(acc, e.0, e.1) == Ok::<Settings, Seq<char>>(acc1));
        assert forall|i: int| 0 <= i < rest.len() implies r.contains(#[trigger] rest[i]) by {
            assert(rest[i] == es[i + 1]);
        }
        lemma_read_rendered_entries(acc1, s, rest);
        assert forall|key: Seq<char>| has_key(es, key) == (e.0 == key || has_key(rest, key)) by {
            if has_key(rest, key) {
                let i = choose|i: int| 0 <= i < rest.len() && (#[trigger] rest[i]).0 == key;
                assert(es[i + 1] == rest[i]);
            }
            if has_key(es, key) && e.0 != key {
                let i = choose|i: int| 0 <= i < es.len() && (#[trigger] es[i]).0 == key;
                assert(rest[i - 1] == es[i]);
            }
            if e.0 == key {
                assert(es[0].0 == key);
            }
        }
        assert(overlay(acc1, s, rest) == overlay(acc, s, es));
    }
}

/// What `render` writes, loading reads back. The TOML grammar is the parser's:
/// whenever it reads the rendered file as the five keys with the values
/// written for them, in whatever order, the settings read back are exactly
/// the ones rendered.
pub proof fn law_rendered_file_reads_back(s: Settings, es: Seq<(Seq<char>, TomlScalar)>)
    requires
        toml_table(config_text(s)) == Ok::<Seq<(Seq<char>, TomlScalar)>, Seq<char>>(es),
        forall|i: int| 0 <= i < es.len() ==> rendered_entries(s).contains(#[trigger] es[i]),
        forall|j: int| 0 <= j < 5 ==> es.contains(#[trigger] rendered_entries(s)[j]),
    ensures
        settings_from_text(config_text(s)) == Ok::<Settings, Seq<char>>(s),
{
    lemma_read_rendered_entries(default_settings(), s, es);
    let r = rendered_entries(s);
    assert forall|j: int| 0 <= j < 5 implies has_key(es, (#[trigger] r[j]).0) by {
        assert(es.contains(r[j]));
        let i = choose|i: int| 0 <= i < es.len() && es[i] == r[j];
        assert(es[i].0 == r[j].0);
    }
    assert(has_key(es, r[0].0));
    assert(has_key(es, r[1].0));
    assert(has_key(es, r[2].0));
    assert(has_key(es, r[3].0));
    assert(has_key(es, r[4].0));
    assert(overlay(default_settings(), s, es) == s);
}

/// Each trigger watches the Windows virtual key named after it, and so does
/// the hook configuration built from a slot holding it: `VK_LMENU` (0xA4),
/// `VK_RMENU` (0xA5), `VK_LCONTROL` (0xA2), `VK_RCONTROL` (0xA3), `VK_LSHIFT`
/// (0xA0), `VK_RSHIFT` (0xA1), `VK_LWIN` (0x5B), `VK_RWIN` (0x5C) and
/// `VK_APPS` (0x5D, the Menu key, not Alt's `VK_MENU`). An empty slot
/// watches code 0, which no key sends.
pub proof fn law_triggers_are_the_windows_keys(k: TriggerKey)
    ensures
        slot_vk(Some(k)) == trigger_vk(k),
        slot_vk(None) == 0,
        (k == TriggerKey::LeftAlt) == (trigger_vk(k) == 0xA4),
        (k == TriggerKey::RightAlt) == (trigger_vk(k) == 0xA5),
        (k == TriggerKey::LeftCtrl) == (trigger_vk(k) == 0xA2),
        (k == TriggerKey::RightCtrl) == (trigger_vk(k) == 0xA3),
        (k == TriggerKey::LeftShift) == (trigger_vk(k) == 0xA0),
        (k == TriggerKey::RightShift) == (trigger_vk(k) == 0xA1),
        (k == TriggerKey::LeftWin) == (trigger_vk(k) == 0x5B),
        (k == TriggerKey::RightWin) == (trigger_vk(k) == 0x5C),
        (k == TriggerKey::Menu) == (trigger_vk(k) == 0x5D),
{
}

/// The hook configuration watches exactly the keys the settings name, in
/// their slots: for every settings value, the left and right codes are the
/// Windows virtual keys of the chosen triggers (0 for an empty slot).
pub proof fn law_runtime_watches_the_chosen_keys(s: Settings)
    ensures
        ({
            let code = |slot: Option<TriggerKey>| match slot {
                None => 0u16,
                Some(TriggerKey::LeftAlt) => 0xA4u16,
                Some(TriggerKey::RightAlt) => 0xA5u16,
                Some(TriggerKey::LeftCtrl) => 0xA2u16,
                Some(TriggerKey::RightCtrl) => 0xA3u16,
                Some(TriggerKey::LeftShift) => 0xA0u16,
                Some(TriggerKey::RightShift) => 0xA1u16,
                Some(TriggerKey::LeftWin) => 0x5Bu16,
                Some(TriggerKey::RightWin) => 0x5Cu16,
                Some(TriggerKey::Menu) => 0x5Du16,
            };
            &&& slot_vk(s.left_trigger) == code(s.left_trigger)
            &&& slot_vk(s.right_trigger) == code(s.right_trigger)
        }),
{
}

} // verus!
