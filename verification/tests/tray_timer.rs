use lava_timer::title::{format_clock_label, push_decimal, tray_timer_title};
use lava_timer::tray_timer::{
    latest_screen_inactive_at, pause_tray_timer_at, sync_tray_timer, tray_elapsed_seconds,
    TrayTimer,
};

#[test]
fn native_tray_timer_advances_without_webview_ticks() {
    let timer = TrayTimer {
        base_seconds: 77 * 60,
        run_start_ms: Some(1_000),
    };

    assert_eq!(
        tray_elapsed_seconds(&timer, 66 * 60 * 1000 + 1_000),
        143 * 60
    );
    assert_eq!(tray_timer_title(&timer, 66 * 60 * 1000 + 1_000), "2:23");
}

#[test]
fn paused_tray_timer_keeps_a_visible_app_title() {
    let timer = TrayTimer {
        base_seconds: 2 * 3600 + 22 * 60,
        run_start_ms: None,
    };

    assert_eq!(tray_timer_title(&timer, 123_000), "Lava");
}

#[test]
fn default_timer_is_paused_at_zero() {
    let timer = TrayTimer::default();
    assert_eq!(timer.base_seconds, 0);
    assert_eq!(timer.run_start_ms, None);
    assert_eq!(tray_elapsed_seconds(&timer, 50_000), 0);
    assert_eq!(tray_timer_title(&timer, 50_000), "Lava");
}

#[test]
fn elapsed_counts_whole_seconds_only() {
    let timer = TrayTimer { base_seconds: 5, run_start_ms: Some(10_000) };
    assert_eq!(tray_elapsed_seconds(&timer, 10_999), 5);
    assert_eq!(tray_elapsed_seconds(&timer, 11_000), 6);
    assert_eq!(tray_elapsed_seconds(&timer, 72_500), 67);
}

#[test]
fn clock_before_run_start_adds_nothing() {
    let timer = TrayTimer { base_seconds: 42, run_start_ms: Some(10_000) };
    assert_eq!(tray_elapsed_seconds(&timer, 3_000), 42);
    assert_eq!(tray_timer_title(&timer, 3_000), "0:00");
}

#[test]
fn elapsed_never_goes_backward() {
    let timer = TrayTimer { base_seconds: 7, run_start_ms: Some(1_000) };
    let mut previous = 0;
    for now in [0u64, 999, 1_000, 1_999, 2_000, 61_000, 3_601_000] {
        let seconds = tray_elapsed_seconds(&timer, now);
        assert!(seconds >= previous);
        previous = seconds;
    }
}

#[test]
fn title_pads_minutes_to_two_digits() {
    assert_eq!(format_clock_label(0), "0:00");
    assert_eq!(format_clock_label(5 * 60 + 59), "0:05");
    assert_eq!(format_clock_label(3600 + 9 * 60), "1:09");
    assert_eq!(format_clock_label(3600 * 100 + 59 * 60 + 59), "100:59");
}

#[test]
fn title_changes_only_with_the_minute() {
    assert_eq!(format_clock_label(125 * 60), format_clock_label(125 * 60 + 59));
    assert_ne!(format_clock_label(125 * 60 + 59), format_clock_label(126 * 60));
}

#[test]
fn decimal_numerals_have_no_leading_zeros() {
    let mut out = String::from("h=");
    push_decimal(&mut out, 0);
    assert_eq!(out, "h=0");
    let mut out = String::new();
    push_decimal(&mut out, 1_234_567_890);
    assert_eq!(out, "1234567890");
    let mut out = String::new();
    push_decimal(&mut out, u64::MAX);
    assert_eq!(out, u64::MAX.to_string());
}

#[test]
fn pausing_folds_the_run_into_the_base() {
    let mut timer = TrayTimer { base_seconds: 10, run_start_ms: Some(1_000) };
    pause_tray_timer_at(&mut timer, 5_500);
    assert_eq!(timer.base_seconds, 14);
    assert_eq!(timer.run_start_ms, None);
}

#[test]
fn pausing_keeps_the_time_shown_and_freezes_it() {
    let mut timer = TrayTimer { base_seconds: 600, run_start_ms: Some(20_000) };
    let at_pause = tray_elapsed_seconds(&timer, 95_000);
    pause_tray_timer_at(&mut timer, 95_000);
    assert_eq!(tray_elapsed_seconds(&timer, 95_000), at_pause);
    assert_eq!(tray_elapsed_seconds(&timer, 9_999_999), at_pause);
    assert_eq!(tray_timer_title(&timer, 9_999_999), "Lava");
}

#[test]
fn pausing_twice_changes_nothing() {
    let mut timer = TrayTimer { base_seconds: 3, run_start_ms: Some(0) };
    pause_tray_timer_at(&mut timer, 4_000);
    let base = timer.base_seconds;
    pause_tray_timer_at(&mut timer, 90_000);
    assert_eq!(timer.base_seconds, base);
    assert_eq!(timer.run_start_ms, None);
}

#[test]
fn pausing_before_the_run_start_adds_nothing() {
    let mut timer = TrayTimer { base_seconds: 8, run_start_ms: Some(10_000) };
    pause_tray_timer_at(&mut timer, 2_000);
    assert_eq!(timer.base_seconds, 8);
    assert_eq!(timer.run_start_ms, None);
}

#[test]
fn pausing_saturates_the_base() {
    let mut timer = TrayTimer { base_seconds: u64::MAX - 1, run_start_ms: Some(0) };
    pause_tray_timer_at(&mut timer, 10_000);
    assert_eq!(timer.base_seconds, u64::MAX);
}

#[test]
fn sync_takes_over_base_and_start() {
    let mut timer = TrayTimer::default();
    sync_tray_timer(&mut timer, 120, Some(8_000), 9_000, 5_000);
    assert_eq!(timer.base_seconds, 120);
    assert_eq!(timer.run_start_ms, Some(8_000));
    sync_tray_timer(&mut timer, 130, None, 9_000, 5_000);
    assert_eq!(timer.base_seconds, 130);
    assert_eq!(timer.run_start_ms, None);
}

#[test]
fn sync_moves_a_future_start_back_to_now() {
    let mut timer = TrayTimer::default();
    sync_tray_timer(&mut timer, 0, Some(12_000), 9_000, 0);
    assert_eq!(timer.run_start_ms, Some(9_000));
}

#[test]
fn stale_sync_cannot_restart_a_paused_timer() {
    let mut timer = TrayTimer { base_seconds: 60, run_start_ms: Some(1_000) };
    pause_tray_timer_at(&mut timer, 5_000);
    sync_tray_timer(&mut timer, 60, Some(4_000), 9_000, 5_000);
    assert_eq!(timer.run_start_ms, None);
    sync_tray_timer(&mut timer, 60, Some(5_000), 9_000, 5_000);
    assert_eq!(timer.run_start_ms, None);
    sync_tray_timer(&mut timer, 60, Some(5_001), 9_000, 5_000);
    assert_eq!(timer.run_start_ms, Some(5_001));
}

#[test]
fn inactive_time_zero_means_never() {
    assert_eq!(latest_screen_inactive_at(0), None);
    assert_eq!(latest_screen_inactive_at(1_700_000_000_000), Some(1_700_000_000_000));
}
