use vstd::prelude::*;
use crate::expansion::fits_i32;
use crate::placement::{Frame, abs_int, clamp_int, max_int, distance, clamp_to};

verus! {

/// The edges of the work area that a window snaps to, in the order in which
/// ties are broken.
#[derive(Clone, Copy, Debug, PartialEq, Eq, Structural)]
pub enum Edge {
    Left,
    Right,
    Top,
    Bottom,
}

/// The x of a window touching the left edge of the work area.
pub open spec fn snap_left(work_area: Frame) -> int {
    work_area.x as int
}

/// The y of a window touching the top of the work area.
pub open spec fn snap_top(work_area: Frame) -> int {
    work_area.y as int
}

/// The x of a window touching the right edge of the work area.
pub open spec fn snap_right(window: Frame, work_area: Frame) -> int {
    work_area.x + work_area.width - window.width
}

/// The y of a window touching the bottom of the screen (the window may cover
/// the area below the work area, such as the Dock).
pub open spec fn snap_bottom(window: Frame, monitor: Frame) -> int {
    monitor.y + monitor.height - window.height
}

/// The first edge at the smallest of the four distances.
pub open spec fn first_nearest(d_left: int, d_right: int, d_top: int, d_bottom: int) -> Edge {
    if d_left <= d_right && d_left <= d_top && d_left <= d_bottom {
        Edge::Left
    } else if d_right <= d_top && d_right <= d_bottom {
        Edge::Right
    } else if d_top <= d_bottom {
        Edge::Top
    } else {
        Edge::Bottom
    }
}

/// Distance of the window from each edge.
pub open spec fn edge_distance(window: Frame, work_area: Frame, monitor: Frame, edge: Edge) -> int {
    match edge {
        Edge::Left => abs_int(window.x - snap_left(work_area)),
        Edge::Right => abs_int(window.x - snap_right(window, work_area)),
        Edge::Top => abs_int(window.y - snap_top(work_area)),
        Edge::Bottom => abs_int(window.y - snap_bottom(window, monitor)),
    }
}

/// The edge nearest to the window (the first one on a tie).
pub open spec fn nearest_edge(window: Frame, work_area: Frame, monitor: Frame) -> Edge {
    first_nearest(
        edge_distance(window, work_area, monitor, Edge::Left),
        edge_distance(window, work_area, monitor, Edge::Right),
        edge_distance(window, work_area, monitor, Edge::Top),
        edge_distance(window, work_area, monitor, Edge::Bottom),
    )
}

/// Where a window dropped at `window` goes: nowhere when even the nearest
/// edge is farther than `threshold`; otherwise onto the nearest edge, with the
/// other coordinate limited to the work area (and the bottom of the screen).
pub open spec fn snapped_position(
    window: Frame,
    work_area: Frame,
    monitor: Frame,
    threshold: i32,
) -> Option<(int, int)> {
    let left = snap_left(work_area);
    let right = snap_right(window, work_area);
    let top = snap_top(work_area);
    let bottom = snap_bottom(window, monitor);
    let edge = nearest_edge(window, work_area, monitor);
    if edge_distance(window, work_area, monitor, edge) > threshold {
        None
    } else {
        let x = clamp_int(window.x as int, left, max_int(right, left));
        let y = clamp_int(window.y as int, top, max_int(bottom, top));
        Some(
            match edge {
                Edge::Left => (left, y),
                Edge::Right => (right, y),
                Edge::Top => (x, top),
                Edge::Bottom => (x, bottom),
            },
        )
    }
}

/// The integer steps of the snapping stay inside `i32`.
pub open spec fn snap_inputs_fit(window: Frame, work_area: Frame, monitor: Frame) -> bool {
    &&& fits_i32(work_area.x + work_area.width)
    &&& fits_i32(snap_right(window, work_area))
    &&& fits_i32(monitor.y + monitor.height)
    &&& fits_i32(snap_bottom(window, monitor))
    &&& fits_i32(window.x - snap_left(work_area))
    &&& fits_i32(abs_int(window.x - snap_left(work_area)))
    &&& fits_i32(window.x - snap_right(window, work_area))
    &&& fits_i32(abs_int(window.x - snap_right(window, work_area)))
    &&& fits_i32(window.y - snap_top(work_area))
    &&& fits_i32(abs_int(window.y - snap_top(work_area)))
    &&& fits_i32(window.y - snap_bottom(window, monitor))
    &&& fits_i32(abs_int(window.y - snap_bottom(window, monitor)))
}

/// The position a window at `window` snaps to after a drag ends, or `None`
/// when it stays where it is. `monitor` is the whole screen the window is on,
/// `work_area` the part of it not taken by the menu bar and Dock, and
/// `threshold` the snapping distance in physical pixels.
pub fn snap_window_to_edge(
    window: Frame,
    work_area: Frame,
    monitor: Frame,
    threshold: i32,
) -> (target: Option<(i32, i32)>)
    requires
        snap_inputs_fit(window, work_area, monitor),
    ensures
        match target {
            Some(p) => snapped_position(window, work_area, monitor, threshold) == Some(
                (p.0 as int, p.1 as int),
            ),
            None => snapped_position(window, work_area, monitor, threshold) is None,
        },
{
    let left = work_area.x;
    let top = work_area.y;
    let right = work_area.x + work_area.width - window.width;
    let bottom = monitor.y + monitor.height - window.height;

    let d_left = distance(window.x, left);
    let d_right = distance(window.x, right);
    let d_top = distance(window.y, top);
    let d_bottom = distance(window.y, bottom);

    // The first edge at the smallest distance.
    let mut edge = Edge::Left;
    let mut nearest = d_left;
    if d_right < nearest {
        edge = Edge::Right;
        nearest = d_right;
    }
    if d_top < nearest {
        edge = Edge::Top;
        nearest = d_top;
    }
    if d_bottom < nearest {
        edge = Edge::Bottom;
        nearest = d_bottom;
    }

    if nearest > threshold {
        return None;
    }

    let mut x = clamp_to(window.x, left, right);
    let mut y = clamp_to(window.y, top, bottom);
    match edge {
        Edge::Left => x = left,
        Edge::Right => x = right,
        Edge::Top => y = top,
        Edge::Bottom => y = bottom,
    }
    Some((x, y))
}

/// A snapped window sits on the edge it snapped to: its x touches the left or
/// right edge, or its y touches the top of the work area or the bottom of the
/// screen.
pub proof fn lemma_snapped_window_touches_an_edge(
    window: Frame,
    work_area: Frame,
    monitor: Frame,
    threshold: i32,
)
    requires
        snapped_position(window, work_area, monitor, threshold) is Some,
    ensures
        ({
            let p = snapped_position(window, work_area, monitor, threshold).unwrap();
            ||| p.0 == snap_left(work_area)
            ||| p.0 == snap_right(window, work_area)
            ||| p.1 == snap_top(work_area)
            ||| p.1 == snap_bottom(window, monitor)
        }),
{
}

/// A window farther than `threshold` from every edge is left where it is.
pub proof fn lemma_far_window_stays(
    window: Frame,
    work_area: Frame,
    monitor: Frame,
    threshold: i32,
)
    requires
        edge_distance(window, work_area, monitor, Edge::Left) > threshold,
        edge_distance(window, work_area, monitor, Edge::Right) > threshold,
        edge_distance(window, work_area, monitor, Edge::Top) > threshold,
        edge_distance(window, work_area, monitor, Edge::Bottom) > threshold,
    ensures
        snapped_position(window, work_area, monitor, threshold) is None,
{
}

/// Snapping a snapped window again leaves it where it is, when the window
/// fits the screen (its snap positions are not beyond the opposite edges)
/// and the threshold is not negative.
pub proof fn lemma_snapping_is_idempotent(
    window: Frame,
    work_area: Frame,
    monitor: Frame,
    threshold: i32,
    moved: Frame,
)
    requires
        threshold >= 0,
        snap_left(work_area) <= snap_right(window, work_area),
        snap_top(work_area) <= snap_bottom(window, monitor),
        snapped_position(window, work_area, monitor, threshold) is Some,
        moved.width == window.width,
        moved.height == window.height,
        (moved.x as int, moved.y as int) == snapped_position(
            window,
            work_area,
            monitor,
            threshold,
        ).unwrap(),
    ensures
        snapped_position(moved, work_area, monitor, threshold) == Some(
            (moved.x as int, moved.y as int),
        ),
{
}

} // verus!

verus! {

/// A snapped window lands on an edge at the smallest distance from it, stated
/// on the raw distances to the left, right and top of the work area and to
/// the bottom of the screen: whichever coordinate it sits on, no other edge
/// was nearer, and the distance to that edge is within the threshold.
pub proof fn lemma_snap_lands_on_a_nearest_edge(
    window: Frame,
    work_area: Frame,
    monitor: Frame,
    threshold: i32,
)
    requires
        snapped_position(window, work_area, monitor, threshold) is Some,
    ensures
        ({
            let p = snapped_position(window, work_area, monitor, threshold).unwrap();
            let left = work_area.x as int;
            let right = work_area.x + work_area.width - window.width;
            let top = work_area.y as int;
            let bottom = monitor.y + monitor.height - window.height;
            let dl = abs_int(window.x - left);
            let dr = abs_int(window.x - right);
            let dt = abs_int(window.y - top);
            let db = abs_int(window.y - bottom);
            ||| (p.0 == left && dl <= dr && dl <= dt && dl <= db && dl <= threshold)
            ||| (p.0 == right && dr <= dl && dr <= dt && dr <= db && dr <= threshold)
            ||| (p.1 == top && dt <= dl && dt <= dr && dt <= db && dt <= threshold)
            ||| (p.1 == bottom && db <= dl && db <= dr && db <= dt && db <= threshold)
        }),
{
}

/// When the top of the work area is strictly the nearest edge and within the
/// threshold, the window moves onto it, keeping its x inside the work area.
pub proof fn lemma_snap_to_strictly_nearest_top(
    window: Frame,
    work_area: Frame,
    monitor: Frame,
    threshold: i32,
)
    requires
        ({
            let left = work_area.x as int;
            let right = work_area.x + work_area.width - window.width;
            let bottom = monitor.y + monitor.height - window.height;
            let dt = abs_int(window.y - work_area.y);
            &&& dt < abs_int(window.x - left)
            &&& dt < abs_int(window.x - right)
            &&& dt < abs_int(window.y - bottom)
            &&& dt <= threshold
        }),
    ensures
        ({
            let left = work_area.x as int;
            let right = work_area.x + work_area.width - window.width;
            snapped_position(window, work_area, monitor, threshold) == Some(
                (clamp_int(window.x as int, left, max_int(right, left)), work_area.y as int),
            )
        }),
{
}

/// When the bottom of the screen is strictly the nearest edge and within the
/// threshold, the window moves onto it, keeping its x inside the work area.
pub proof fn lemma_snap_to_strictly_nearest_bottom(
    window: Frame,
    work_area: Frame,
    monitor: Frame,
    threshold: i32,
)
    requires
        ({
            let left = work_area.x as int;
            let right = work_area.x + work_area.width - window.width;
            let bottom = monitor.y + monitor.height - window.height;
            let db = abs_int(window.y - bottom);
            &&& db < abs_int(window.x - left)
            &&& db < abs_int(window.x - right)
            &&& db < abs_int(window.y - work_area.y)
            &&& db <= threshold
        }),
    ensures
        ({
            let left = work_area.x as int;
            let right = work_area.x + work_area.width - window.width;
            let bottom = monitor.y + monitor.height - window.height;
            snapped_position(window, work_area, monitor, threshold) == Some(
                (clamp_int(window.x as int, left, max_int(right, left)), bottom),
            )
        }),
{
}

/// When a side edge is strictly the nearest edge and within the threshold,
/// the window moves onto it, keeping its y between the top of the work area
/// and the bottom of the screen.
pub proof fn lemma_snap_to_strictly_nearest_side(
    window: Frame,
    work_area: Frame,
    monitor: Frame,
    threshold: i32,
)
    requires
        ({
            let left = work_area.x as int;
            let right = work_area.x + work_area.width - window.width;
            let bottom = monitor.y + monitor.height - window.height;
            let dl = abs_int(window.x - left);
            let dr = abs_int(window.x - right);
            let dt = abs_int(window.y - work_area.y);
            let db = abs_int(window.y - bottom);
            ||| (dl < dr && dl < dt && dl < db && dl <= threshold)
            ||| (dr < dl && dr < dt && dr < db && dr <= threshold)
        }),
    ensures
        ({
            let left = work_area.x as int;
            let right = work_area.x + work_area.width - window.width;
            let top = work_area.y as int;
            let bottom = monitor.y + monitor.height - window.height;
            let dl = abs_int(window.x - left);
            let dr = abs_int(window.x - right);
            let y = clamp_int(window.y as int, top, max_int(bottom, top));
            snapped_position(window, work_area, monitor, threshold) == Some(
                (if dl < dr {
                    left
                } else {
                    right
                }, y),
            )
        }),
{
}

} // verus!
