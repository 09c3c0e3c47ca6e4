//! The settings window's decisions: what its controls mean, when OK and
//! Apply are allowed, and where everything goes.
//!
//! The window itself is raw Win32, hand-built and modeless. Reading a control
//! and drawing one are that side's work; what the values read mean, and what
//! the window does about them, is here. Nothing here touches the state
//! machine: committed settings go on an outbox that the main loop drains.
use vstd::prelude::*;

use crate::numbers::{digits_value, hex_digit_value, parse_u16_hex, unsigned_value};
use crate::settings::{trigger_list, trigger_name, trigger_names, problem_text, problems_of, Settings, TriggerKey};
use crate::text::push_str;

verus! {

/// `USER_DEFAULT_SCREEN_DPI`: the DPI the layout is written in.
pub const USER_DEFAULT_SCREEN_DPI: i32 = 96;

/// Space round the edge of the window.
pub const MARGIN: i32 = 11;

/// Height of one row's field.
pub const ROW_H: i32 = 23;

/// Distance from one row to the next.
pub const ROW_STEP: i32 = 29;

/// Where the first row starts.
pub const ROW0: i32 = 11;

/// Width of the client area.
pub const CLIENT_W: i32 = 280;

/// Where content ends on the right.
pub const CONTENT_RIGHT: i32 = 269;

/// Width of a button.
pub const BTN_W: i32 = 80;

/// Gap between two buttons.
pub const BTN_GAP: i32 = 7;

/// The top of row `n`, in DIPs.
pub fn row(n: i32) -> (r: i32)
    requires
        i32::MIN <= ROW0 + n * ROW_STEP <= i32::MAX,
    ensures
        r == ROW0 + n * ROW_STEP,
{
    ROW0 + n * ROW_STEP
}

/// The left edge of the button `from_right` places in from the right, in
/// DIPs. Buttons are right-aligned, so they are placed from the right edge
/// inwards.
pub fn button_x(from_right: i32) -> (r: i32)
    requires
        i32::MIN <= CONTENT_RIGHT - (from_right + 1) * BTN_W - from_right * BTN_GAP <= i32::MAX,
    ensures
        r == CONTENT_RIGHT - (from_right + 1) * BTN_W - from_right * BTN_GAP,
{
    // Every partial result lies between CONTENT_RIGHT and the final one.
    CONTENT_RIGHT - (from_right + 1) * BTN_W - from_right * BTN_GAP
}

/// `a / b` rounded toward zero, as integer division does.
pub open spec fn div_toward_zero(a: int, b: int) -> int {
    if a >= 0 {
        a / b
    } else {
        -((-a) / b)
    }
}

/// A length in DIPs scaled to `dpi`, rounded toward zero. Negative lengths
/// (a font height in its "character height" form) scale the same way.
pub fn dip(v: i32, dpi: u32) -> (r: i32)
    requires
        dpi <= i32::MAX,
        i32::MIN <= v * dpi <= i32::MAX,
    ensures
        r == div_toward_zero(v * dpi, 96),
{
    let scaled: i32 = v * (dpi as i32);
    scaled / USER_DEFAULT_SCREEN_DPI
}

/// The two direction dropdowns show "(none)" first, then every trigger in
/// `TriggerKey::all` order.
pub const NONE_LABEL: &'static str = "(none)";

/// What a dropdown row index means: row 0 is "(none)", the rest are the
/// triggers in order. `None` for no selection (`CB_ERR`) or an index past
/// the end.
pub open spec fn slot_at_index(index: isize) -> Option<Option<TriggerKey>> {
    if index == 0 {
        Some(None)
    } else if 1 <= index <= 9 {
        Some(Some(trigger_list()[index - 1]))
    } else {
        None
    }
}

/// The dropdown row showing `slot`.
pub open spec fn index_of_slot(slot: Option<TriggerKey>) -> int {
    match slot {
        None => 0,
        Some(k) => 1 + match k {
            TriggerKey::LeftAlt => 0int,
            TriggerKey::RightAlt => 1,
            TriggerKey::LeftCtrl => 2,
            TriggerKey::RightCtrl => 3,
            TriggerKey::LeftShift => 4,
            TriggerKey::RightShift => 5,
            TriggerKey::LeftWin => 6,
            TriggerKey::RightWin => 7,
            TriggerKey::Menu => 8,
        },
    }
}

/// What a dropdown is showing, from its `CB_GETCURSEL` answer.
///
/// Two layers of `Option` and both matter: the inner one is the user's
/// choice of "no key at all", the outer one is a combo with nothing selected.
pub fn combo_choice(index: isize) -> (r: Option<Option<TriggerKey>>)
    ensures
        r == slot_at_index(index),
{
    if index == 0 {
        return Some(None);
    }
    if index < 1 || index > 9 {
        return None;
    }
    let all = TriggerKey::all();
    Some(Some(all[(index - 1) as usize]))
}

/// The dropdown row to select for `slot`.
pub fn combo_index(slot: Option<TriggerKey>) -> (r: usize)
    ensures
        r == index_of_slot(slot),
{
    match slot {
        None => 0,
        Some(key) => {
            let all = TriggerKey::all();
            let mut i: usize = 0;
            while i < 9
                invariant
                    all@ == trigger_list(),
                    slot == Some(key),
                    i <= 9,
                    forall|j: int| 0 <= j < i ==> all@[j] != key,
                decreases 9 - i,
            {
                if all[i] == key {
                    proof {
                        lemma_index_of_listed(i as int);
                    }
                    return i + 1;
                }
                i += 1;
            }
            proof {
                crate::settings::lemma_every_trigger_is_listed(key);
            }
            0
        },
    }
}

proof fn lemma_index_of_listed(i: int)
    requires
        0 <= i < 9,
    ensures
        index_of_slot(Some(trigger_list()[i])) == i + 1,
{
    let l = trigger_list();
    if i == 0 {
        assert(l[0] == TriggerKey::LeftAlt);
    } else if i == 1 {
        assert(l[1] == TriggerKey::RightAlt);
    } else if i == 2 {
        assert(l[2] == TriggerKey::LeftCtrl);
    } else if i == 3 {
        assert(l[3] == TriggerKey::RightCtrl);
    } else if i == 4 {
        assert(l[4] == TriggerKey::LeftShift);
    } else if i == 5 {
        assert(l[5] == TriggerKey::RightShift);
    } else if i == 6 {
        assert(l[6] == TriggerKey::LeftWin);
    } else if i == 7 {
        assert(l[7] == TriggerKey::RightWin);
    } else {
        assert(l[8] == TriggerKey::Menu);
    }
}

/// What the dropdown row `i` is labelled: "(none)" for the empty slot, the
/// trigger's name otherwise.
pub open spec fn row_label(i: int) -> Seq<char> {
    match slot_at_index(i as isize) {
        Some(Some(k)) => trigger_name(k),
        _ => NONE_LABEL@,
    }
}

/// The labels of both dropdowns' rows, top to bottom. Each row's label names
/// the slot `combo_choice` reads that row as, so the two cannot drift apart.
pub fn combo_labels() -> (r: Vec<&'static str>)
    ensures
        r@.len() == 10,
        forall|i: int| 0 <= i < 10 ==> (#[trigger] r@[i])@ == row_label(i),
{
    let names = trigger_names();
    let mut labels: Vec<&'static str> = Vec::new();
    labels.push(NONE_LABEL);
    proof {
        assert(crate::text::strs_view(names@).len() == names@.len());
        assert(crate::settings::trigger_names_view().len() == trigger_list().len());
    }
    let mut i: usize = 0;
    while i < 9
        invariant
            crate::text::strs_view(names@) == crate::settings::trigger_names_view(),
            names@.len() == 9,
            i <= 9,
            labels@.len() == i + 1,
            labels@[0]@ == NONE_LABEL@,
            forall|j: int| 1 <= j <= i ==> (#[trigger] labels@[j])@ == trigger_name(trigger_list()[j - 1]),
        decreases 9 - i,
    {
        proof {
            assert(crate::text::strs_view(names@)[i as int] == names@[i as int]@);
            assert(crate::settings::trigger_names_view()[i as int] == trigger_name(trigger_list()[i as int]));
        }
        labels.push(names[i]);
        i += 1;
    }
    proof {
        assert forall|i: int| 0 <= i < 10 implies (#[trigger] labels@[i])@ == row_label(i) by {
            if i > 0 {
                assert(slot_at_index(i as isize) == Some(Some(trigger_list()[i - 1])));
            }
        }
    }
    labels
}

/// Selecting the row for a slot reads back as that slot.
pub proof fn law_combo_rows_round_trip(slot: Option<TriggerKey>)
    ensures
        0 <= index_of_slot(slot) <= 9,
        slot_at_index(index_of_slot(slot) as isize) == Some(slot),
{
}

/// Keep the two dropdowns from ever holding the same key, by swapping.
///
/// `left` and `right` are what the dropdowns now show, `was` what they showed
/// before the change, and `changed_left` says which one the user changed.
/// Setting one side to the other's key swaps the two: the other side takes
/// the changed side's previous key. Two empty slots are not a clash and must
/// not swap: "(none)" on both sides is the inert state, and it is allowed.
pub open spec fn distinct_pair(
    left: Option<TriggerKey>,
    right: Option<TriggerKey>,
    was: (Option<TriggerKey>, Option<TriggerKey>),
    changed_left: bool,
) -> (Option<TriggerKey>, Option<TriggerKey>) {
    if left is Some && left == right {
        if changed_left {
            (left, was.0)
        } else {
            (was.1, right)
        }
    } else {
        (left, right)
    }
}

/// The pair the dropdowns should show after a change (see `distinct_pair`).
pub fn keep_triggers_distinct(
    left: Option<TriggerKey>,
    right: Option<TriggerKey>,
    was: (Option<TriggerKey>, Option<TriggerKey>),
    changed_left: bool,
) -> (r: (Option<TriggerKey>, Option<TriggerKey>))
    ensures
        r == distinct_pair(left, right, was, changed_left),
{
    if left.is_some() && left == right {
        if changed_left {
            (left, was.0)
        } else {
            (was.1, right)
        }
    } else {
        (left, right)
    }
}

/// Changing one dropdown never leaves the same key in both when they held
/// different keys (or no key) before, and only a clash moves the other one.
pub proof fn law_dropdowns_stay_distinct(
    left: Option<TriggerKey>,
    right: Option<TriggerKey>,
    was: (Option<TriggerKey>, Option<TriggerKey>),
    changed_left: bool,
)
    requires
        was.0 is Some ==> was.0 != was.1,
        changed_left ==> right == was.1,
        !changed_left ==> left == was.0,
    ensures
        ({
            let r = distinct_pair(left, right, was, changed_left);
            &&& r.0 is Some ==> r.0 != r.1
            &&& !(left is Some && left == right) ==> r == (left, right)
        }),
{
}

/// `IDOK`: the OK button, and what Enter presses.
pub const IDOK: i32 = 1;

/// `IDCANCEL`: the Cancel button, and what Esc presses.
pub const IDCANCEL: i32 = 2;

/// The "turn IME off" dropdown.
pub const IDC_LEFT: i32 = 100;

/// The "turn IME on" dropdown.
pub const IDC_RIGHT: i32 = 101;

/// The threshold edit.
pub const IDC_THRESHOLD: i32 = 102;

/// The dummy key edit.
pub const IDC_DUMMY: i32 = 103;

/// The "show the IME state on the tray icon" checkbox.
pub const IDC_SHOW_IME: i32 = 104;

/// The Apply button.
pub const IDC_APPLY: i32 = 106;

/// `CBN_SELCHANGE`: a dropdown's selection changed.
pub const CBN_SELCHANGE: u32 = 1;

/// `EN_CHANGE`: an edit's text changed.
pub const EN_CHANGE: u32 = 0x0300;

/// `BN_CLICKED`: a button, the checkbox included, was clicked.
pub const BN_CLICKED: u32 = 0;

/// What a `WM_COMMAND` asks of the settings window.
#[derive(Debug, Clone, Copy, PartialEq, Eq, Structural)]
pub enum DialogCommand {
    /// A dropdown changed: keep the two distinct, then recheck. `left` says
    /// which one.
    TriggerChanged { left: bool },
    /// The threshold, the dummy or the IME display checkbox changed: recheck.
    FieldEdited,
    /// Commit, and close if that worked.
    Accept,
    /// Commit and stay open.
    Apply,
    /// Close without committing. Also the Esc key.
    Cancel,
    /// Nothing this window acts on.
    Ignore,
}

/// The low word of a message parameter.
pub open spec fn low_word(w: usize) -> nat {
    (w % 65536) as nat
}

/// The high word of a message parameter's low 32 bits.
pub open spec fn high_word(w: usize) -> nat {
    ((w / 65536) % 65536) as nat
}

/// What a control id and notification code ask of the window.
pub open spec fn command_for(id: nat, notify: nat) -> DialogCommand {
    if (id == IDC_LEFT || id == IDC_RIGHT) && notify == CBN_SELCHANGE {
        DialogCommand::TriggerChanged { left: id == IDC_LEFT }
    } else if (id == IDC_THRESHOLD || id == IDC_DUMMY) && notify == EN_CHANGE {
        DialogCommand::FieldEdited
    } else if id == IDC_SHOW_IME && notify == BN_CLICKED {
        DialogCommand::FieldEdited
    } else if id == IDOK {
        DialogCommand::Accept
    } else if id == IDC_APPLY {
        DialogCommand::Apply
    } else if id == IDCANCEL {
        DialogCommand::Cancel
    } else {
        DialogCommand::Ignore
    }
}

/// Decode a `WM_COMMAND`'s `wParam`: the control id is the low word, the
/// notification code the high word.
pub fn command_of(wparam: usize) -> (r: DialogCommand)
    ensures
        r == command_for(low_word(wparam), high_word(wparam)),
{
    let id: usize = wparam & 0xFFFF;
    let notify: usize = (wparam >> 16) & 0xFFFF;
    assert(id == wparam % 65536 && notify == (wparam / 65536) % 65536) by (bit_vector)
        requires
            id == wparam & 0xFFFF,
            notify == (wparam >> 16) & 0xFFFF,
    ;
    if (id == 100 || id == 101) && notify == 1 {
        DialogCommand::TriggerChanged { left: id == 100 }
    } else if (id == 102 || id == 103) && notify == 0x0300 {
        DialogCommand::FieldEdited
    } else if id == 104 && notify == 0 {
        DialogCommand::FieldEdited
    } else if id == 1 {
        DialogCommand::Accept
    } else if id == 106 {
        DialogCommand::Apply
    } else if id == 2 {
        DialogCommand::Cancel
    } else {
        DialogCommand::Ignore
    }
}

/// The new DPI a `WM_DPICHANGED` carries, in the low word of `wParam`.
pub fn dpi_of(wparam: usize) -> (r: u32)
    ensures
        r == low_word(wparam),
{
    let d: usize = wparam & 0xFFFF;
    assert(d == wparam % 65536) by (bit_vector)
        requires
            d == wparam & 0xFFFF,
    ;
    d as u32
}

/// Where a span of length `len` starts when centred in `lo..hi`, rounded
/// toward `lo` the way integer division does.
pub fn centred(lo: i32, hi: i32, len: i32) -> (r: i32)
    requires
        i32::MIN <= hi - lo <= i32::MAX,
        i32::MIN <= hi - lo - len <= i32::MAX,
        i32::MIN <= lo + div_toward_zero(hi - lo - len, 2) <= i32::MAX,
    ensures
        r == lo + div_toward_zero(hi - lo - len, 2),
{
    let room: i32 = hi - lo - len;
    lo + room / 2
}

/// Why the controls cannot be read, phrased for the hint line.
pub const NO_THRESHOLD: &'static str = "A threshold is required.";

/// The dummy field is empty.
pub const NO_DUMMY: &'static str = "A dummy key is required.";

/// The dummy field is not hex.
pub const DUMMY_NOT_HEX: &'static str = "The dummy key is hex: two digits, 00 to FF, no 0x.";

/// A dropdown has nothing selected.
pub const NOTHING_SELECTED: &'static str = "Nothing is selected.";

/// What the controls say, or why they cannot be read.
///
/// The dummy is hex and never prefixed: the "0x" beside the field is a
/// label, so a typed one is a mistake rather than a second way of saying the
/// same thing.
pub open spec fn read_controls(
    threshold: Option<u32>,
    typed_dummy: Seq<char>,
    left: Option<Option<TriggerKey>>,
    right: Option<Option<TriggerKey>>,
    show_ime_state: bool,
) -> Result<Settings, Seq<char>> {
    if threshold is None {
        Err(NO_THRESHOLD@)
    } else if typed_dummy.len() == 0 {
        Err(NO_DUMMY@)
    } else if unsigned_value(typed_dummy, 16, u16::MAX as int) is None {
        Err(DUMMY_NOT_HEX@)
    } else if left is None || right is None {
        Err(NOTHING_SELECTED@)
    } else {
        Ok(
            Settings {
                left_trigger: left->0,
                right_trigger: right->0,
                threshold_ms: threshold->0 as u64,
                dummy_vk: unsigned_value(typed_dummy, 16, u16::MAX as int)->0 as u16,
                show_ime_state,
            },
        )
    }
}

/// The plain value of a settings-or-reason result.
pub open spec fn read_view(r: Result<Settings, &'static str>) -> Result<Settings, Seq<char>> {
    match r {
        Ok(s) => Ok(s),
        Err(m) => Err(m@),
    }
}

/// Read the controls' values: the threshold edit (`None` when empty), the
/// dummy edit's text, what the two dropdowns show, and the IME display
/// checkbox.
pub fn read(
    threshold: Option<u32>,
    typed_dummy: &str,
    left: Option<Option<TriggerKey>>,
    right: Option<Option<TriggerKey>>,
    show_ime_state: bool,
) -> (r: Result<Settings, &'static str>)
    ensures
        read_view(r) == read_controls(threshold, typed_dummy@, left, right, show_ime_state),
{
    let threshold = match threshold {
        Some(t) => t,
        None => return Err(NO_THRESHOLD),
    };
    if typed_dummy.unicode_len() == 0 {
        return Err(NO_DUMMY);
    }
    let dummy = match parse_u16_hex(typed_dummy) {
        Ok(d) => d,
        Err(_) => return Err(DUMMY_NOT_HEX),
    };
    let left_trigger = match left {
        Some(l) => l,
        None => return Err(NOTHING_SELECTED),
    };
    let right_trigger = match right {
        Some(r) => r,
        None => return Err(NOTHING_SELECTED),
    };
    Ok(
        Settings {
            left_trigger,
            right_trigger,
            threshold_ms: threshold as u64,
            dummy_vk: dummy,
            show_ime_state,
        },
    )
}

/// What the window shows and allows for what the controls currently say.
#[derive(Debug)]
pub struct Verdict {
    /// The hint line: why the values cannot be used, or empty.
    pub hint: String,
    /// The hint is a refusal, drawn in red, and OK is greyed out.
    pub blocked: bool,
    /// Apply is enabled: the values can be used and differ from what was
    /// last applied.
    pub apply_enabled: bool,
}

/// The hint for what the controls say: the reason they cannot be read, or
/// the first problem with the settings they hold, or nothing. The hint only
/// ever reports something wrong.
pub open spec fn hint_text(current: Result<Settings, Seq<char>>) -> Seq<char> {
    match current {
        Err(why) => why,
        Ok(s) => if problems_of(s).len() > 0 {
            problem_text(problems_of(s)[0])
        } else {
            Seq::empty()
        },
    }
}

/// Whether what the controls say cannot be committed.
pub open spec fn is_blocked(current: Result<Settings, Seq<char>>) -> bool {
    match current {
        Err(_) => true,
        Ok(s) => problems_of(s).len() > 0,
    }
}

/// Refresh the hint and the enabled state of OK and Apply.
pub fn revalidate(current: Result<Settings, &'static str>, applied: Settings) -> (r: Verdict)
    ensures
        r.hint@ == hint_text(read_view(current)),
        r.blocked == is_blocked(read_view(current)),
        r.apply_enabled == (!is_blocked(read_view(current)) && read_view(current) != Ok::<
            Settings,
            Seq<char>,
        >(applied)),
{
    let mut hint = String::new();
    let blocked = match current {
        Err(why) => {
            push_str(&mut hint, why);
            true
        },
        Ok(settings) => {
            let problems = settings.problems();
            if problems.len() > 0 {
                hint = problems[0].message();
                true
            } else {
                false
            }
        },
    };
    let same = match current {
        Ok(s) => s == applied,
        Err(_) => false,
    };
    Verdict { hint, blocked, apply_enabled: !blocked && !same }
}

/// The settings OK or Apply may commit: what the controls say, if it can be
/// read and nothing about it cannot work.
pub fn committable(current: Result<Settings, &'static str>) -> (r: Option<Settings>)
    ensures
        r == match read_view(current) {
            Ok(s) => if problems_of(s).len() == 0 {
                Some(s)
            } else {
                None
            },
            Err(_) => None,
        },
{
    match current {
        Ok(s) => {
            let problems = s.problems();
            if problems.len() == 0 {
                Some(s)
            } else {
                None
            }
        },
        Err(_) => None,
    }
}

/// Only what the hint does not refuse can be committed: OK is enabled
/// exactly when the values would be committed.
pub proof fn law_commit_exactly_when_not_blocked(current: Result<Settings, Seq<char>>)
    ensures
        !is_blocked(current) <==> (current matches Ok(s) && problems_of(s).len() == 0),
        is_blocked(current) <==> hint_text(current).len() > 0 || (current matches Err(w) && w.len()
            == 0),
{
    match current {
        Err(_) => {},
        Ok(s) => {
            if problems_of(s).len() > 0 {
                crate::settings::law_every_problem_fits(problems_of(s)[0]);
                lemma_problem_text_not_empty(problems_of(s)[0]);
            }
        },
    }
}

proof fn lemma_problem_text_not_empty(p: crate::settings::Problem)
    ensures
        problem_text(p).len() > 0,
{
    reveal_strlit("A threshold of 0 never fires: no press is shorter than it.");
    reveal_strlit("0x00 is not a virtual key.");
    reveal_strlit(" is set for both, so nothing would turn the IME on.");
    reveal_strlit(" acts on its own solo press, so it cannot be the dummy.");
}

/// Committed settings waiting for the main loop, oldest first.
///
/// The window cannot reach the hook thread itself, so it leaves what the
/// user committed here, and the main loop hands each on to the hook thread.
#[derive(Debug)]
pub struct Outbox {
    pending: Vec<Settings>,
}

impl Outbox {
    /// What is waiting, oldest first.
    pub closed spec fn spec_pending(&self) -> Seq<Settings> {
        self.pending@
    }

    pub fn new() -> (r: Outbox)
        ensures
            r.spec_pending() == Seq::<Settings>::empty(),
    {
        Outbox { pending: Vec::new() }
    }

    /// Leave committed settings for the main loop.
    pub fn push(&mut self, s: Settings)
        ensures
            final(self).spec_pending() == old(self).spec_pending().push(s),
    {
        self.pending.push(s);
    }

    /// Committed settings not yet handed on, oldest first. Empties the box.
    pub fn poll(&mut self) -> (r: Vec<Settings>)
        ensures
            r@ == old(self).spec_pending(),
            final(self).spec_pending() == Seq::<Settings>::empty(),
    {
        let mut taken: Vec<Settings> = Vec::new();
        std::mem::swap(&mut taken, &mut self.pending);
        taken
    }
}

proof fn lemma_hex_digits_not_negative(s: Seq<char>)
    ensures
        digits_value(s, 16) matches Some(v) ==> v >= 0,
    decreases s.len(),
{
    if s.len() > 0 {
        lemma_hex_digits_not_negative(s.drop_last());
    }
}

/// The dummy field is read in base 16, always: one or two hex digits of
/// either case, decimal-looking ones included ("87" is 0x87, `VK_F24`), give
/// the dummy key `16 * first + second`, and the other controls' values go
/// through unchanged. Whatever the field holds, a successful read's dummy is
/// the field's base-16 value.
pub proof fn law_dummy_field_is_hex(
    threshold: u32,
    c0: char,
    c1: char,
    left: Option<TriggerKey>,
    right: Option<TriggerKey>,
    show: bool,
    typed: Seq<char>,
    l: Option<Option<TriggerKey>>,
    r: Option<Option<TriggerKey>>,
)
    requires
        hex_digit_value(c0) is Some,
        hex_digit_value(c1) is Some,
    ensures
        read_controls(Some(threshold), seq![c0, c1], Some(left), Some(right), show) == Ok::<
            Settings,
            Seq<char>,
        >(
            Settings {
                left_trigger: left,
                right_trigger: right,
                threshold_ms: threshold as u64,
                dummy_vk: (16 * hex_digit_value(c0)->0 + hex_digit_value(c1)->0) as u16,
                show_ime_state: show,
            },
        ),
        read_controls(Some(threshold), seq![c1], Some(left), Some(right), show) == Ok::<
            Settings,
            Seq<char>,
        >(
            Settings {
                left_trigger: left,
                right_trigger: right,
                threshold_ms: threshold as u64,
                dummy_vk: hex_digit_value(c1)->0 as u16,
                show_ime_state: show,
            },
        ),
        ('0' <= c0 <= '9' && '0' <= c1 <= '9') ==> (read_controls(
            Some(threshold),
            seq![c0, c1],
            Some(left),
            Some(right),
            show,
        ) matches Ok(st) && st.dummy_vk == 16 * (c0 as int - '0' as int) + (c1 as int - '0' as int)),
        read_controls(Some(threshold), typed, l, r, show) matches Ok(st) ==> unsigned_value(
            typed,
            16,
            0xFFFF,
        ) == Some(st.dummy_vk as int),
{
    let two = seq![c0, c1];
    let one = seq![c1];
    let first = seq![c0];
    assert(two.drop_last() =~= first);
    assert(first.drop_last() =~= Seq::<char>::empty());
    assert(one.drop_last() =~= Seq::<char>::empty());
    assert(digits_value(Seq::<char>::empty(), 16) == Some(0int));
    assert(digits_value(first, 16) == Some(hex_digit_value(c0)->0));
    assert(digits_value(one, 16) == Some(hex_digit_value(c1)->0));
    assert(digits_value(two, 16) == Some(hex_digit_value(c0)->0 * 16 + hex_digit_value(c1)->0));
    assert(c0 != '+' && c1 != '+');
    assert(unsigned_value(two, 16, u16::MAX as int) == Some(16 * hex_digit_value(c0)->0 + hex_digit_value(c1)->0));
    assert(unsigned_value(one, 16, u16::MAX as int) == Some(hex_digit_value(c1)->0));
    let body = if typed.len() > 0 && typed[0] == '+' {
        typed.drop_first()
    } else {
        typed
    };
    lemma_hex_digits_not_negative(body);
}

/// The controls are read exactly when every one of them can be: a threshold
/// is typed, the dummy field holds a base-16 number no larger than 0xFFFF,
/// and both dropdowns have a row selected. Otherwise the first control in
/// that order that cannot be read says why.
pub proof fn law_read_refuses_exactly_what_cannot_be_read(
    threshold: Option<u32>,
    typed: Seq<char>,
    left: Option<Option<TriggerKey>>,
    right: Option<Option<TriggerKey>>,
    show: bool,
)
    ensures
        read_controls(threshold, typed, left, right, show) is Ok <==> (threshold is Some && unsigned_value(
            typed,
            16,
            0xFFFF,
        ) is Some && left is Some && right is Some),
        threshold is None ==> read_controls(threshold, typed, left, right, show) == Err::<
            Settings,
            Seq<char>,
        >("A threshold is required."@),
        threshold is Some && typed.len() == 0 ==> read_controls(threshold, typed, left, right, show)
            == Err::<Settings, Seq<char>>("A dummy key is required."@),
        threshold is Some && typed.len() > 0 && unsigned_value(typed, 16, 0xFFFF) is None
            ==> read_controls(threshold, typed, left, right, show) == Err::<Settings, Seq<char>>(
            "The dummy key is hex: two digits, 00 to FF, no 0x."@,
        ),
        read_controls(threshold, typed, left, right, show) matches Ok(s) ==> s.left_trigger
            == left->0 && s.right_trigger == right->0 && s.threshold_ms == threshold->0 as u64
            && s.show_ime_state == show,
{
    if typed.len() == 0 {
        assert(unsigned_value(typed, 16, 0xFFFF) is None);
    }
}

} // verus!
