use lava_timer::expansion::should_expand_upward;
use lava_timer::layout::{is_capsule_view, WindowLayout};
use lava_timer::placement::{resized_window_position, Frame};
use lava_timer::snap::snap_window_to_edge;

#[test]
fn window_expands_down_when_there_is_enough_space() {
    assert!(!should_expand_upward(100, 60, 560, 24, 900));
}

#[test]
fn window_expands_up_near_the_screen_bottom() {
    assert!(should_expand_upward(800, 60, 560, 24, 900));
}

#[test]
fn room_exactly_enough_below_still_expands_down() {
    // Growth 500, room below 900 - (340 + 60) = 500.
    assert!(!should_expand_upward(340, 60, 560, 24, 900));
    // One pixel lower, and the room above (317) does not suffice either:
    // the window takes the side with more room, which is below (499).
    assert!(!should_expand_upward(341, 60, 560, 24, 900));
}

#[test]
fn without_room_on_either_side_the_larger_side_wins() {
    // Growth 500; above 376, below 364: upward.
    assert!(should_expand_upward(400, 60, 560, 24, 824));
    // Above 300, below 440: downward.
    assert!(!should_expand_upward(324, 60, 560, 24, 824));
    // Equal room on both sides: downward.
    assert!(!should_expand_upward(394, 60, 560, 24, 824));
}

#[test]
fn shrinking_never_expands_upward() {
    assert!(!should_expand_upward(880, 560, 60, 24, 900));
}

#[test]
fn lower_positions_keep_expanding_upward() {
    let mut seen_up = false;
    for y in (0..900).step_by(25) {
        let up = should_expand_upward(y, 60, 560, 24, 900);
        if seen_up {
            assert!(up);
        }
        seen_up |= up;
    }
    assert!(seen_up);
}

fn frame(x: i32, y: i32, width: i32, height: i32) -> Frame {
    Frame { x, y, width, height }
}

#[test]
fn resize_keeps_left_snapped_window_on_the_left() {
    let work = frame(0, 50, 2000, 1150);
    let old = frame(10, 300, 160, 80);
    let p = resized_window_position(old, work, 1200, 56, 840, 1120, -340, true, false);
    assert_eq!(p, (0, 80));
}

#[test]
fn resize_keeps_right_snapped_window_on_the_right() {
    let work = frame(0, 50, 2000, 1150);
    let old = frame(1830, 300, 160, 80);
    let p = resized_window_position(old, work, 1200, 56, 840, 400, -340, false, false);
    assert_eq!(p, (1160, 300));
}

#[test]
fn resize_centres_a_free_window() {
    let work = frame(0, 50, 2000, 1150);
    let old = frame(900, 300, 160, 80);
    let p = resized_window_position(old, work, 1200, 56, 840, 400, -340, false, false);
    assert_eq!(p, (560, 300));
}

#[test]
fn upward_resize_keeps_the_bottom_edge() {
    let work = frame(0, 50, 2000, 1150);
    let old = frame(900, 1000, 160, 80);
    let p = resized_window_position(old, work, 1200, 56, 840, 600, -340, true, true);
    assert_eq!(p, (560, 480));
    assert_eq!(p.1 + 600, 1000 + 80);
}

#[test]
fn resized_window_is_kept_inside_the_work_area() {
    let work = frame(0, 50, 2000, 1150);
    // Anchoring the bottom would push it above the work area.
    let old = frame(900, 200, 160, 80);
    let p = resized_window_position(old, work, 1200, 56, 840, 600, -340, true, true);
    assert_eq!(p, (560, 50));
    // Too far right after centring.
    let old = frame(1900, 300, 50, 80);
    let p = resized_window_position(old, work, 1200, 10, 840, 600, -395, false, false);
    assert_eq!(p, (1160, 300));
}

#[test]
fn snap_moves_to_the_nearest_edge() {
    let work = frame(0, 50, 2000, 1150);
    let monitor = frame(0, 0, 2000, 1200);
    let window = frame(30, 600, 200, 100);
    assert_eq!(snap_window_to_edge(window, work, monitor, 56), Some((0, 600)));
    let window = frame(1760, 600, 200, 100);
    assert_eq!(snap_window_to_edge(window, work, monitor, 56), Some((1800, 600)));
    let window = frame(900, 70, 200, 100);
    assert_eq!(snap_window_to_edge(window, work, monitor, 56), Some((900, 50)));
    let window = frame(900, 1080, 200, 100);
    assert_eq!(snap_window_to_edge(window, work, monitor, 56), Some((900, 1100)));
}

#[test]
fn snap_leaves_a_far_window_alone() {
    let work = frame(0, 50, 2000, 1150);
    let monitor = frame(0, 0, 2000, 1200);
    let window = frame(900, 600, 200, 100);
    assert_eq!(snap_window_to_edge(window, work, monitor, 56), None);
}

#[test]
fn snap_prefers_the_first_edge_on_a_tie_and_clamps_the_other_axis() {
    let work = frame(0, 50, 2000, 1150);
    let monitor = frame(0, 0, 2000, 1200);
    // 20 px from the left and 20 px above the work area: left wins, y is
    // brought into the work area.
    let window = frame(20, 30, 200, 100);
    assert_eq!(snap_window_to_edge(window, work, monitor, 56), Some((0, 50)));
}

#[test]
fn snapping_twice_changes_nothing() {
    let work = frame(0, 50, 2000, 1150);
    let monitor = frame(0, 0, 2000, 1200);
    let window = frame(1790, 1130, 200, 100);
    let (x, y) = snap_window_to_edge(window, work, monitor, 56).unwrap();
    let moved = frame(x, y, 200, 100);
    assert_eq!(snap_window_to_edge(moved, work, monitor, 56), Some((x, y)));
}

#[test]
fn layout_starts_without_a_view_expanding_down() {
    let layout = WindowLayout::default();
    assert_eq!(layout.view, None);
    assert!(!layout.expand_upward);
    assert!(!layout.is_capsule());
}

#[test]
fn layout_records_views() {
    let mut layout = WindowLayout::default();
    assert!(!layout.record_view(String::from("capsule")));
    assert!(layout.is_capsule());
    assert!(layout.record_view(String::from("panel")));
    assert!(!layout.is_capsule());
    assert_eq!(layout.view.as_deref(), Some("panel"));
    assert!(is_capsule_view(&String::from("capsule")));
    assert!(!is_capsule_view(&String::from("Capsule")));
}

#[test]
fn layout_reports_direction_changes() {
    let mut layout = WindowLayout::default();
    assert!(!layout.set_expand_upward(false));
    assert!(layout.set_expand_upward(true));
    assert!(layout.expand_upward);
    assert!(!layout.set_expand_upward(true));
    assert!(layout.set_expand_upward(false));
}
