use vstd::prelude::*;

verus! {

/// Whether `v` fits in an `i32`.
pub open spec fn fits_i32(v: int) -> bool {
    i32::MIN <= v <= i32::MAX
}

/// The larger of `v` and 0.
pub open spec fn at_least_zero(v: int) -> int {
    if v >= 0 {
        v
    } else {
        0
    }
}

/// How much taller the window becomes when it expands.
pub open spec fn growth(current_height: int, expanded_height: int) -> int {
    at_least_zero(expanded_height - current_height)
}

/// Free room between the top of the work area and the window.
pub open spec fn room_above(position_y: int, top: int) -> int {
    at_least_zero(position_y - top)
}

/// Free room between the window and the bottom of the screen.
pub open spec fn room_below(position_y: int, current_height: int, bottom: int) -> int {
    at_least_zero(bottom - (position_y + current_height))
}

/// The direction in which the window grows: downward whenever the room below
/// suffices, otherwise upward when the room above suffices, and otherwise
/// toward the side with strictly more room.
pub open spec fn expands_upward(
    position_y: int,
    current_height: int,
    expanded_height: int,
    top: int,
    bottom: int,
) -> bool {
    let g = growth(current_height, expanded_height);
    let above = room_above(position_y, top);
    let below = room_below(position_y, current_height, bottom);
    if below >= g {
        false
    } else if above >= g {
        true
    } else {
        above > below
    }
}

/// The integer steps of the computation stay inside `i32`.
pub open spec fn expansion_inputs_fit(
    position_y: int,
    current_height: int,
    expanded_height: int,
    top: int,
    bottom: int,
) -> bool {
    &&& fits_i32(expanded_height - current_height)
    &&& fits_i32(position_y - top)
    &&& fits_i32(position_y + current_height)
    &&& fits_i32(bottom - (position_y + current_height))
}

/// Whether a window at `position_y` with height `current_height` (physical
/// pixels) should grow upward to reach `expanded_height`, given the top of
/// the work area and the bottom of the screen.
pub fn should_expand_upward(
    position_y: i32,
    current_height: i32,
    expanded_height: i32,
    top: i32,
    bottom: i32,
) -> (up: bool)
    requires
        expansion_inputs_fit(
            position_y as int,
            current_height as int,
            expanded_height as int,
            top as int,
            bottom as int,
        ),
    ensures
        up == expands_upward(
            position_y as int,
            current_height as int,
            expanded_height as int,
            top as int,
            bottom as int,
        ),
{
    let raw_growth = expanded_height - current_height;
    let growth: i32 = if raw_growth >= 0 { raw_growth } else { 0 };
    let raw_above = position_y - top;
    let space_above: i32 = if raw_above >= 0 { raw_above } else { 0 };
    let raw_below = bottom - (position_y + current_height);
    let space_below: i32 = if raw_below >= 0 { raw_below } else { 0 };

    if space_below >= growth {
        false
    } else if space_above >= growth {
        true
    } else {
        space_above > space_below
    }
}

/// A window with enough room below always expands downward.
pub proof fn lemma_room_below_means_down(
    position_y: int,
    current_height: int,
    expanded_height: int,
    top: int,
    bottom: int,
)
    requires
        room_below(position_y, current_height, bottom) >= growth(current_height, expanded_height),
    ensures
        !expands_upward(position_y, current_height, expanded_height, top, bottom),
{
}

/// A window without room below but with room above expands upward.
pub proof fn lemma_room_only_above_means_up(
    position_y: int,
    current_height: int,
    expanded_height: int,
    top: int,
    bottom: int,
)
    requires
        room_below(position_y, current_height, bottom) < growth(current_height, expanded_height),
        room_above(position_y, top) >= growth(current_height, expanded_height),
    ensures
        expands_upward(position_y, current_height, expanded_height, top, bottom),
{
}

/// The window never grows toward the side with less room: when it expands
/// upward the room above suffices or exceeds the room below, and when it
/// expands downward the room below suffices or is at least the room above.
pub proof fn lemma_expands_toward_more_room(
    position_y: int,
    current_height: int,
    expanded_height: int,
    top: int,
    bottom: int,
)
    ensures
        ({
            let g = growth(current_height, expanded_height);
            let above = room_above(position_y, top);
            let below = room_below(position_y, current_height, bottom);
            &&& expands_upward(position_y, current_height, expanded_height, top, bottom) ==> (
            above >= g || above > below)
            &&& !expands_upward(position_y, current_height, expanded_height, top, bottom) ==> (
            below >= g || below >= above)
        }),
{
}

/// Moving a window lower on the screen never turns an upward expansion into
/// a downward one.
pub proof fn lemma_lower_window_keeps_expanding_up(
    position_y: int,
    lower_y: int,
    current_height: int,
    expanded_height: int,
    top: int,
    bottom: int,
)
    requires
        position_y <= lower_y,
        expands_upward(position_y, current_height, expanded_height, top, bottom),
    ensures
        expands_upward(lower_y, current_height, expanded_height, top, bottom),
{
}

} // verus!

verus! {

/// Stated on the raw coordinates: when the room between the window's bottom
/// edge and the screen bottom is at least the height the window gains, the
/// window expands downward.
pub proof fn lemma_enough_room_below_expands_down(
    position_y: int,
    current_height: int,
    expanded_height: int,
    top: int,
    bottom: int,
)
    requires
        bottom - (position_y + current_height) >= expanded_height - current_height,
    ensures
        !expands_upward(position_y, current_height, expanded_height, top, bottom),
{
}

/// Stated on the raw coordinates: when the window gains height, the room
/// below is less than the gain and the room between the top of the work area
/// and the window is at least the gain, the window expands upward.
pub proof fn lemma_enough_room_only_above_expands_up(
    position_y: int,
    current_height: int,
    expanded_height: int,
    top: int,
    bottom: int,
)
    requires
        expanded_height > current_height,
        bottom - (position_y + current_height) < expanded_height - current_height,
        position_y - top >= expanded_height - current_height,
    ensures
        expands_upward(position_y, current_height, expanded_height, top, bottom),
{
}

/// A window that does not grow never expands upward.
pub proof fn lemma_no_growth_expands_down(
    position_y: int,
    current_height: int,
    expanded_height: int,
    top: int,
    bottom: int,
)
    requires
        expanded_height <= current_height,
    ensures
        !expands_upward(position_y, current_height, expanded_height, top, bottom),
{
}

} // verus!
