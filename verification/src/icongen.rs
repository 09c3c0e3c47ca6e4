//! The plan behind turning the artwork into the assets the app embeds.
//!
//! Rasterising SVG and encoding the icon file are the `resvg` and `ico`
//! crates' work, done by the developer tool by hand, never by a build. Which
//! sizes are made, how each is encoded, and the order of resampling steps
//! that gets a 1254px master down to 16px without aliasing, are here.
use vstd::prelude::*;

use crate::text::push_str;

verus! {

/// The tray icon size: one size only, matching what the shell asks for.
pub const TRAY_SIZE: u32 = 32;

/// From this size up an icon entry is stored as PNG rather than BMP: a
/// 256x256 BMP entry is 256KB of uncompressed pixels for nothing.
pub const PNG_ENTRY_FROM: u32 = 256;

/// The sizes in the application icon, smallest first.
pub open spec fn app_icon_size_list() -> Seq<u32> {
    seq![16, 20, 24, 32, 40, 48, 64, 128, 256]
}

/// The sizes to put in the application icon. Windows asks for all of these
/// in one place or another: 16 in Explorer's details view, 32 on the
/// desktop, 256 in the extra large view, the rest at other scalings.
pub fn app_icon_sizes() -> (r: [u32; 9])
    ensures
        r@ == app_icon_size_list(),
{
    let r = [16, 20, 24, 32, 40, 48, 64, 128, 256];
    assert(r@ =~= app_icon_size_list());
    r
}

/// Whether the entry of this size is stored as PNG (otherwise BMP).
pub fn entry_is_png(size: u32) -> (r: bool)
    ensures
        r == (size >= PNG_ENTRY_FROM),
{
    size >= PNG_ENTRY_FROM
}

/// `<theme>-<glyph>` for each tray icon, matching both the artwork's file
/// names and the assets'.
pub open spec fn tray_variant_list() -> Seq<Seq<char>> {
    seq!["black-en"@, "black-ja"@, "black-undef"@, "white-en"@, "white-ja"@, "white-undef"@]
}

/// Every tray icon variant, in order.
pub fn tray_variants() -> (r: Vec<&'static str>)
    ensures
        crate::text::strs_view(r@) == tray_variant_list(),
{
    let r = vec!["black-en", "black-ja", "black-undef", "white-en", "white-ja", "white-undef"];
    assert(crate::text::strs_view(r@) =~= tray_variant_list());
    r
}

/// The artwork a tray variant is drawn from.
pub fn tray_source_name(variant: &str) -> (r: String)
    ensures
        r@ == "altoggle-trayicon-"@ + variant@ + ".svg"@,
{
    let mut s = String::new();
    push_str(&mut s, "altoggle-trayicon-");
    push_str(&mut s, variant);
    push_str(&mut s, ".svg");
    s
}

/// The asset a tray variant is written to.
pub fn tray_target_name(variant: &str) -> (r: String)
    ensures
        r@ == "tray-"@ + variant@ + ".png"@,
{
    let mut s = String::new();
    push_str(&mut s, "tray-");
    push_str(&mut s, variant);
    push_str(&mut s, ".png");
    s
}

/// Which resampling filter a step uses.
#[derive(Debug, Clone, Copy, PartialEq, Eq, Structural)]
pub enum Filter {
    Bilinear,
    Bicubic,
}

/// The widths of the halving steps from `w` down towards `size`: halve for
/// as long as the half is still at least `size`.
pub open spec fn halvings(w: nat, size: nat) -> Seq<nat>
    decreases w,
{
    if size > 0 && w / 2 >= size {
        seq![w / 2] + halvings(w / 2, size)
    } else {
        Seq::empty()
    }
}

/// The width after every halving step.
pub open spec fn after_halvings(w: nat, size: nat) -> nat
    decreases w,
{
    if size > 0 && w / 2 >= size {
        after_halvings(w / 2, size)
    } else {
        w
    }
}

/// Shrinking a square of width `w` to `size`: every halving step, each with
/// the bilinear filter, then one bicubic step to `size` unless the halvings
/// already landed on it.
pub open spec fn downscale_steps(w: nat, size: nat) -> Seq<(nat, Filter)> {
    halvings(w, size).map_values(|x: nat| (x, Filter::Bilinear)) + if after_halvings(w, size) == size {
        Seq::empty()
    } else {
        seq![(size, Filter::Bicubic)]
    }
}

/// The steps that shrink a square `master_w` wide to `size`, halving
/// repeatedly first.
///
/// Resampling a 1254px master to 16px in one step aliases badly whatever the
/// filter: each output pixel would be decided by a handful of the source
/// pixels it covers. Halving averages the whole area down first, and only the
/// last step needs a good filter.
pub fn downscale_plan(master_w: u32, size: u32) -> (r: Vec<(u32, Filter)>)
    requires
        size > 0,
    ensures
        r@.map_values(|s: (u32, Filter)| (s.0 as nat, s.1)) == downscale_steps(master_w as nat, size as nat),
{
    let mut steps: Vec<(u32, Filter)> = Vec::new();
    let mut current = master_w;
    let ghost view = |s: (u32, Filter)| (s.0 as nat, s.1);
    let ghost bil = |x: nat| (x, Filter::Bilinear);
    while current / 2 >= size
        invariant
            size > 0,
            view == (|s: (u32, Filter)| (s.0 as nat, s.1)),
            bil == (|x: nat| (x, Filter::Bilinear)),
            steps@.map_values(view) + halvings(current as nat, size as nat).map_values(bil) == halvings(
                master_w as nat,
                size as nat,
            ).map_values(bil),
            after_halvings(current as nat, size as nat) == after_halvings(master_w as nat, size as nat),
        decreases current,
    {
        let ghost before = steps@;
        let next = current / 2;
        steps.push((next, Filter::Bilinear));
        proof {
            let h = halvings(current as nat, size as nat);
            assert(h == seq![next as nat] + halvings(next as nat, size as nat));
            assert(h.map_values(bil) =~= seq![(next as nat, Filter::Bilinear)] + halvings(
                next as nat,
                size as nat,
            ).map_values(bil));
            assert(steps@.map_values(view) =~= before.map_values(view).push((next as nat, Filter::Bilinear)));
            assert(steps@.map_values(view) + halvings(next as nat, size as nat).map_values(bil) =~= before.map_values(
                view,
            ) + h.map_values(bil));
        }
        current = next;
    }
    assert(halvings(current as nat, size as nat) =~= Seq::<nat>::empty());
    assert(halvings(current as nat, size as nat).map_values(bil) =~= Seq::<(nat, Filter)>::empty());
    assert(steps@.map_values(view) =~= halvings(master_w as nat, size as nat).map_values(bil));
    let ghost halved = steps@;
    if current != size {
        steps.push((size, Filter::Bicubic));
        assert(steps@.map_values(view) =~= halved.map_values(view).push((size as nat, Filter::Bicubic)));
    }
    proof {
        assert(after_halvings(current as nat, size as nat) == current);
    }
    steps
}

/// Every halving stays at or above the target, and the step left for the
/// bicubic filter is never more than 2:1.
pub proof fn law_last_step_is_at_most_two_to_one(w: nat, size: nat)
    requires
        size > 0,
        w >= size,
    ensures
        size <= after_halvings(w, size) < 2 * size,
    decreases w,
{
    if w / 2 >= size {
        law_last_step_is_at_most_two_to_one(w / 2, size);
    }
}

} // verus!
