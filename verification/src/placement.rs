use vstd::prelude::*;
use crate::expansion::fits_i32;

verus! {

/// A rectangle on screen in physical pixels: its top-left corner and size.
#[derive(Clone, Copy, Debug, PartialEq, Eq, Structural)]
pub struct Frame {
    pub x: i32,
    pub y: i32,
    pub width: i32,
    pub height: i32,
}

/// Absolute value.
pub open spec fn abs_int(v: int) -> int {
    if v >= 0 {
        v
    } else {
        -v
    }
}

/// `v` limited to `[lo, hi]` (with `lo <= hi`).
pub open spec fn clamp_int(v: int, lo: int, hi: int) -> int {
    if v < lo {
        lo
    } else if v > hi {
        hi
    } else {
        v
    }
}

/// The larger of two integers.
pub open spec fn max_int(a: int, b: int) -> int {
    if a >= b {
        a
    } else {
        b
    }
}

/// `|a - b|` computed in `i32` without overflow.
pub(crate) fn distance(a: i32, b: i32) -> (d: i32)
    requires
        fits_i32(a - b),
        fits_i32(abs_int(a - b)),
    ensures
        d == abs_int(a - b),
{
    let diff = a - b;
    if diff >= 0 {
        diff
    } else {
        -diff
    }
}

/// `v` limited to `[lo, max(hi, lo)]`.
pub(crate) fn clamp_to(v: i32, lo: i32, hi: i32) -> (r: i32)
    ensures
        r == clamp_int(v as int, lo as int, max_int(hi as int, lo as int)),
{
    let upper = if hi >= lo { hi } else { lo };
    if v < lo {
        lo
    } else if v > upper {
        upper
    } else {
        v
    }
}

// ---------------------------------------------------------------------------
// Placement after a resize
// ---------------------------------------------------------------------------

/// The integer steps of the placement after a resize stay inside `i32`.
pub open spec fn resize_inputs_fit(
    old: Frame,
    work_area: Frame,
    screen_bottom: i32,
    threshold: i32,
    new_width: i32,
    new_height: i32,
    center_shift: i32,
    keep_vertical_anchor: bool,
    expand_upward: bool,
) -> bool {
    let old_right = old.x + old.width;
    let old_bottom = old.y + old.height;
    let work_right = work_area.x + work_area.width;
    let snapped_left = abs_int(old.x - work_area.x) <= threshold;
    let snapped_right = abs_int(old_right - work_right) <= threshold;
    &&& fits_i32(old_right)
    &&& fits_i32(old_bottom)
    &&& fits_i32(work_right)
    &&& fits_i32(old.x - work_area.x)
    &&& fits_i32(abs_int(old.x - work_area.x))
    &&& fits_i32(old_right - work_right)
    &&& fits_i32(abs_int(old_right - work_right))
    &&& fits_i32(work_right - new_width)
    &&& fits_i32(screen_bottom - new_height)
    &&& (!snapped_left && !snapped_right ==> fits_i32(old.x + center_shift))
    &&& (keep_vertical_anchor && expand_upward ==> fits_i32(old_bottom - new_height))
}

/// Where a window of frame `old` goes once resized to `new_width` by
/// `new_height` (physical pixels). Horizontally it keeps to the work-area edge
/// it was snapped to (within `threshold`), and otherwise stays centred on its
/// old position, which `center_shift` (half the change in width) expresses.
/// Vertically it keeps its bottom edge when it grows or shrinks upward
/// (`keep_vertical_anchor && expand_upward`), and its top edge otherwise.
/// The result is then limited to the work area, whose bottom is
/// `screen_bottom`.
pub open spec fn resized_position(
    old: Frame,
    work_area: Frame,
    screen_bottom: i32,
    threshold: i32,
    new_width: i32,
    new_height: i32,
    center_shift: i32,
    keep_vertical_anchor: bool,
    expand_upward: bool,
) -> (int, int) {
    let old_right = old.x + old.width;
    let old_bottom = old.y + old.height;
    let work_right = work_area.x + work_area.width;
    let snapped_left = abs_int(old.x - work_area.x) <= threshold;
    let snapped_right = abs_int(old_right - work_right) <= threshold;
    let x = if snapped_left {
        work_area.x as int
    } else if snapped_right {
        work_right - new_width
    } else {
        old.x + center_shift
    };
    let y = if keep_vertical_anchor && expand_upward {
        old_bottom - new_height
    } else {
        old.y as int
    };
    let max_x = max_int(work_right - new_width, work_area.x as int);
    let max_y = max_int(screen_bottom - new_height, work_area.y as int);
    (clamp_int(x, work_area.x as int, max_x), clamp_int(y, work_area.y as int, max_y))
}

/// The position of a window after a resize (see `resized_position`).
pub fn resized_window_position(
    old: Frame,
    work_area: Frame,
    screen_bottom: i32,
    threshold: i32,
    new_width: i32,
    new_height: i32,
    center_shift: i32,
    keep_vertical_anchor: bool,
    expand_upward: bool,
) -> (position: (i32, i32))
    requires
        resize_inputs_fit(
            old,
            work_area,
            screen_bottom,
            threshold,
            new_width,
            new_height,
            center_shift,
            keep_vertical_anchor,
            expand_upward,
        ),
    ensures
        (position.0 as int, position.1 as int) == resized_position(
            old,
            work_area,
            screen_bottom,
            threshold,
            new_width,
            new_height,
            center_shift,
            keep_vertical_anchor,
            expand_upward,
        ),
{
    let old_right = old.x + old.width;
    let old_bottom = old.y + old.height;
    let work_right = work_area.x + work_area.width;
    let snapped_left = distance(old.x, work_area.x) <= threshold;
    let snapped_right = distance(old_right, work_right) <= threshold;

    let x = if snapped_left {
        work_area.x
    } else if snapped_right {
        work_right - new_width
    } else {
        old.x + center_shift
    };
    let y = if keep_vertical_anchor && expand_upward {
        old_bottom - new_height
    } else {
        old.y
    };

    let x = clamp_to(x, work_area.x, work_right - new_width);
    let y = clamp_to(y, work_area.y, screen_bottom - new_height);
    (x, y)
}

/// A resized window that fits the work area lies inside it: its left edge is
/// not left of the work area, its right edge not right of it, its top not
/// above it, and its bottom not below the screen bottom.
pub proof fn lemma_resized_window_stays_in_work_area(
    old: Frame,
    work_area: Frame,
    screen_bottom: i32,
    threshold: i32,
    new_width: i32,
    new_height: i32,
    center_shift: i32,
    keep_vertical_anchor: bool,
    expand_upward: bool,
)
    requires
        new_width <= work_area.width,
        work_area.y + new_height <= screen_bottom,
    ensures
        ({
            let p = resized_position(
                old,
                work_area,
                screen_bottom,
                threshold,
                new_width,
                new_height,
                center_shift,
                keep_vertical_anchor,
                expand_upward,
            );
            &&& work_area.x <= p.0
            &&& p.0 + new_width <= work_area.x + work_area.width
            &&& work_area.y <= p.1
            &&& p.1 + new_height <= screen_bottom
        }),
{
}

/// A window snapped to the left edge of the work area stays on that edge
/// when it is resized.
pub proof fn lemma_left_snapped_window_stays_left(
    old: Frame,
    work_area: Frame,
    screen_bottom: i32,
    threshold: i32,
    new_width: i32,
    new_height: i32,
    center_shift: i32,
    keep_vertical_anchor: bool,
    expand_upward: bool,
)
    requires
        abs_int(old.x - work_area.x) <= threshold,
    ensures
        resized_position(
            old,
            work_area,
            screen_bottom,
            threshold,
            new_width,
            new_height,
            center_shift,
            keep_vertical_anchor,
            expand_upward,
        ).0 == work_area.x,
{
}

/// A window snapped to the right edge (and not the left one) stays on the
/// right edge when it is resized, as long as it fits the work area.
pub proof fn lemma_right_snapped_window_stays_right(
    old: Frame,
    work_area: Frame,
    screen_bottom: i32,
    threshold: i32,
    new_width: i32,
    new_height: i32,
    center_shift: i32,
    keep_vertical_anchor: bool,
    expand_upward: bool,
)
    requires
        abs_int(old.x - work_area.x) > threshold,
        abs_int((old.x + old.width) - (work_area.x + work_area.width)) <= threshold,
        new_width <= work_area.width,
    ensures
        resized_position(
            old,
            work_area,
            screen_bottom,
            threshold,
            new_width,
            new_height,
            center_shift,
            keep_vertical_anchor,
            expand_upward,
        ).0 + new_width == work_area.x + work_area.width,
{
}

/// A window that grows or shrinks upward keeps its bottom edge where it was,
/// as long as the result stays inside the work area.
pub proof fn lemma_upward_resize_keeps_bottom_edge(
    old: Frame,
    work_area: Frame,
    screen_bottom: i32,
    threshold: i32,
    new_width: i32,
    new_height: i32,
    center_shift: i32,
)
    requires
        work_area.y <= (old.y + old.height) - new_height,
        old.y + old.height <= screen_bottom,
    ensures
        resized_position(
            old,
            work_area,
            screen_bottom,
            threshold,
            new_width,
            new_height,
            center_shift,
            true,
            true,
        ).1 + new_height == old.y + old.height,
{
}

} // verus!

verus! {

/// A window snapped to neither side edge keeps its horizontal centre when it
/// is resized, narrower as well as wider: with `center_shift` half the change
/// in width, and room for the result in the work area, the centre of the new
/// frame is the centre of the old one.
pub proof fn lemma_free_window_keeps_its_centre(
    old: Frame,
    work_area: Frame,
    screen_bottom: i32,
    threshold: i32,
    new_width: i32,
    new_height: i32,
    center_shift: i32,
    keep_vertical_anchor: bool,
    expand_upward: bool,
)
    requires
        abs_int(old.x - work_area.x) > threshold,
        abs_int((old.x + old.width) - (work_area.x + work_area.width)) > threshold,
        2 * center_shift == old.width - new_width,
        work_area.x <= old.x + center_shift,
        old.x + center_shift + new_width <= work_area.x + work_area.width,
    ensures
        2 * resized_position(
            old,
            work_area,
            screen_bottom,
            threshold,
            new_width,
            new_height,
            center_shift,
            keep_vertical_anchor,
            expand_upward,
        ).0 + new_width == 2 * old.x + old.width,
{
}

/// A window snapped to neither side edge moves horizontally by exactly
/// `center_shift`, whatever the new width, unless that would leave the work
/// area, in which case it stops at the nearer work-area edge.
pub proof fn lemma_free_window_moves_by_the_shift(
    old: Frame,
    work_area: Frame,
    screen_bottom: i32,
    threshold: i32,
    new_width: i32,
    new_height: i32,
    center_shift: i32,
    keep_vertical_anchor: bool,
    expand_upward: bool,
)
    requires
        abs_int(old.x - work_area.x) > threshold,
        abs_int((old.x + old.width) - (work_area.x + work_area.width)) > threshold,
        new_width <= work_area.width,
    ensures
        ({
            let x = resized_position(
                old,
                work_area,
                screen_bottom,
                threshold,
                new_width,
                new_height,
                center_shift,
                keep_vertical_anchor,
                expand_upward,
            ).0;
            let wanted = old.x + center_shift;
            &&& wanted < work_area.x ==> x == work_area.x
            &&& wanted + new_width > work_area.x + work_area.width ==> x + new_width
                == work_area.x + work_area.width
            &&& (work_area.x <= wanted && wanted + new_width <= work_area.x + work_area.width)
                ==> x == wanted
        }),
{
}

} // verus!
