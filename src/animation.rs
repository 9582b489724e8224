//! Animation progress, easing and the extent a panel takes while it animates.
//!
//! Progress is a fixed-point fraction: `PROGRESS_SCALE` stands for a fully expanded
//! panel and `0` for a fully collapsed one. Extents are whole logical points.
use vstd::arithmetic::div_mod::lemma_div_is_ordered;
use vstd::prelude::*;

verus! {

/// Fixed-point scale of animation progress (one thousandth per step).
pub const PROGRESS_SCALE: u32 = 1000;

/// Below this progress the panel is drawn exactly at its collapsed extent.
pub const SNAP_COLLAPSED_BELOW: u32 = 10;

/// Above this progress the panel is drawn exactly at its saved extent.
pub const SNAP_EXPANDED_ABOVE: u32 = 990;

/// Below this progress the collapsed icon strip is shown.
pub const STRIP_BELOW: u32 = 300;

/// Above this progress the expanded dock content is shown.
pub const CONTENT_ABOVE: u32 = 700;

/// Length of the collapse/expand transition, in milliseconds.
pub const TRANSITION_MS: u32 = 200;

/// Side of one strip icon, in points.
pub const STRIP_ICON_SIZE: u32 = 14;

/// Padding on each side of a strip icon, in points.
pub const STRIP_PADDING: u32 = 6;

/// Extent of a collapsed panel: exactly one icon with its padding.
pub const COLLAPSED_EXTENT: u32 = STRIP_ICON_SIZE + 2 * STRIP_PADDING;

/// Ease-in-out-cubic on fixed-point progress `t` in `[0, PROGRESS_SCALE]`:
/// `4t^3` on the first half, `1 - (2 - 2t)^3 / 2` on the second, rounded down.
pub open spec fn ease(t: int) -> int {
    let s = PROGRESS_SCALE as int;
    if 2 * t < s {
        (4 * (t * t * t)) / (s * s)
    } else {
        let d = 2 * s - 2 * t;
        s - (d * d * d) / (2 * (s * s))
    }
}

/// Which content a panel shows at a given progress.
#[derive(Clone, Copy, Debug, PartialEq, Eq, Structural)]
pub enum PanelContent {
    /// The collapsed icon strip.
    IconStrip,
    /// A neutral busy indicator, while the panel is half way.
    Placeholder,
    /// The full dock content.
    Dock,
}

pub open spec fn content_at(p: int) -> PanelContent {
    if p < STRIP_BELOW as int {
        PanelContent::IconStrip
    } else if p > CONTENT_ABOVE as int {
        PanelContent::Dock
    } else {
        PanelContent::Placeholder
    }
}

/// The part of the distance `d` covered at eased progress `e`, rounded down and,
/// where `d` leaves room for it, kept off both ends so that a running transition
/// never lands on an endpoint.
pub open spec fn partial_step(d: int, e: int) -> int {
    let raw = (d * e) / (PROGRESS_SCALE as int);
    if d < 2 {
        raw
    } else if raw < 1 {
        1
    } else if raw > d - 1 {
        d - 1
    } else {
        raw
    }
}

/// The extent of a panel at progress `p` whose expanded extent is `saved`.
pub open spec fn extent_at(p: int, saved: int) -> int {
    let c = COLLAPSED_EXTENT as int;
    if p < SNAP_COLLAPSED_BELOW as int {
        c
    } else if p > SNAP_EXPANDED_ABOVE as int {
        saved
    } else {
        c + partial_step(saved - c, ease(p))
    }
}

proof fn lemma_cube_bound(t: int)
    requires
        0 <= t <= PROGRESS_SCALE as int,
    ensures
        0 <= t * t <= 1_000_000,
        0 <= t * t * t <= 1_000_000_000,
{
    assert(0 <= t * t <= 1_000_000) by (nonlinear_arith)
        requires
            0 <= t <= 1000,
    ;
    assert(0 <= t * t * t <= 1_000_000_000) by (nonlinear_arith)
        requires
            0 <= t <= 1000,
            0 <= t * t <= 1_000_000,
    ;
}

proof fn lemma_cube_monotone(a: int, b: int)
    requires
        0 <= a <= b,
    ensures
        a * a * a <= b * b * b,
{
    assert(a * a * a <= b * b * b) by (nonlinear_arith)
        requires
            0 <= a <= b,
    ;
}

/// The eased value stays within `[0, PROGRESS_SCALE]`.
pub proof fn lemma_ease_bounds(t: int)
    requires
        0 <= t <= PROGRESS_SCALE as int,
    ensures
        0 <= ease(t) <= PROGRESS_SCALE as int,
        2 * t < PROGRESS_SCALE as int ==> 2 * ease(t) <= PROGRESS_SCALE as int,
        2 * t >= PROGRESS_SCALE as int ==> 2 * ease(t) >= PROGRESS_SCALE as int,
{
    let s = PROGRESS_SCALE as int;
    if 2 * t < s {
        lemma_cube_monotone(t, 500);
        lemma_cube_bound(t);
    } else {
        let d = 2 * s - 2 * t;
        lemma_cube_monotone(d, 1000);
        lemma_cube_bound(d);
    }
}

/// Easing keeps both ends and the midpoint in place: `ease(0) == 0`,
/// `ease(1/2) == 1/2` and `ease(1) == 1`.
pub proof fn lemma_ease_fixed_points()
    ensures
        ease(0) == 0,
        ease(PROGRESS_SCALE as int / 2) == PROGRESS_SCALE as int / 2,
        ease(PROGRESS_SCALE as int) == PROGRESS_SCALE as int,
{
    assert(1000int * 1000 * 1000 == 1_000_000_000) by (nonlinear_arith);
    assert(ease(500) == 1000 - (1000int * 1000 * 1000) / 2_000_000);
}

/// Easing never moves backwards: a later progress gives an eased value at least as large.
pub proof fn lemma_ease_monotone(a: int, b: int)
    requires
        0 <= a <= b <= PROGRESS_SCALE as int,
    ensures
        ease(a) <= ease(b),
{
    let s = PROGRESS_SCALE as int;
    lemma_ease_bounds(a);
    lemma_ease_bounds(b);
    if 2 * b < s {
        lemma_cube_monotone(a, b);
        lemma_div_is_ordered(4 * (a * a * a), 4 * (b * b * b), s * s);
    } else if 2 * a >= s {
        let da = 2 * s - 2 * a;
        let db = 2 * s - 2 * b;
        lemma_cube_monotone(db, da);
        lemma_div_is_ordered(db * db * db, da * da * da, 2 * (s * s));
    }
}

/// `ease(t)` for `t` in `[0, PROGRESS_SCALE]`.
pub fn ease_in_out_cubic(t: u32) -> (r: u32)
    requires
        t <= PROGRESS_SCALE,
    ensures
        r as int == ease(t as int),
        r <= PROGRESS_SCALE,
{
    proof {
        lemma_ease_bounds(t as int);
    }
    let s: u64 = PROGRESS_SCALE as u64;
    let t: u64 = t as u64;
    if 2 * t < s {
        proof {
            lemma_cube_bound(t as int);
        }
        let cube: u64 = t * t * t;
        ((4 * cube) / (s * s)) as u32
    } else {
        let d: u64 = 2 * s - 2 * t;
        proof {
            lemma_cube_bound(d as int);
        }
        let cube: u64 = d * d * d;
        (s - cube / (2 * (s * s))) as u32
    }
}

/// Which content to show at progress `p`.
pub fn content_for_progress(p: u32) -> (r: PanelContent)
    ensures
        r == content_at(p as int),
{
    if p < STRIP_BELOW {
        PanelContent::IconStrip
    } else if p > CONTENT_ABOVE {
        PanelContent::Dock
    } else {
        PanelContent::Placeholder
    }
}

/// The extent of a panel at progress `p` whose (validated) expanded extent is `saved`:
/// the collapsed extent near the start, `saved` near the end, and in between the
/// collapsed extent plus the eased share of the distance.
pub fn interpolated_extent(p: u32, saved: u32) -> (r: u32)
    requires
        p <= PROGRESS_SCALE,
        COLLAPSED_EXTENT <= saved,
    ensures
        r as int == extent_at(p as int, saved as int),
{
    if p < SNAP_COLLAPSED_BELOW {
        COLLAPSED_EXTENT
    } else if p > SNAP_EXPANDED_ABOVE {
        saved
    } else {
        let e = ease_in_out_cubic(p);
        let d: u32 = saved - COLLAPSED_EXTENT;
        assert((d as int) * (e as int) <= (d as int) * 1000) by (nonlinear_arith)
            requires
                0 <= e <= 1000,
                0 <= d,
        ;
        let raw: u64 = (d as u64) * (e as u64) / (PROGRESS_SCALE as u64);
        assert(raw <= d);
        let step: u32 = if d < 2 {
            raw as u32
        } else if raw < 1 {
            1
        } else if raw > (d - 1) as u64 {
            d - 1
        } else {
            raw as u32
        };
        COLLAPSED_EXTENT + step
    }
}

/// At progress `0` the panel has its collapsed extent, at full progress its saved extent,
/// and while the transition runs (between the two snap thresholds) strictly between them.
pub proof fn lemma_extent_endpoints(saved: int, p: int)
    requires
        COLLAPSED_EXTENT as int + 2 <= saved,
        SNAP_COLLAPSED_BELOW as int <= p <= SNAP_EXPANDED_ABOVE as int,
    ensures
        extent_at(0, saved) == COLLAPSED_EXTENT as int,
        extent_at(PROGRESS_SCALE as int, saved) == saved,
        (COLLAPSED_EXTENT as int) < extent_at(p, saved),
        extent_at(p, saved) < saved,
{
}

} // verus!
