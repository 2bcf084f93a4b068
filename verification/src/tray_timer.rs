use vstd::prelude::*;

verus! {

/// The timer shown in the menu bar: whole seconds accumulated before the
/// current run, plus the start of the current run in milliseconds since the
/// Unix epoch when it is running.
pub struct TrayTimer {
    pub base_seconds: u64,
    pub run_start_ms: Option<u64>,
}

/// `a - b`, or 0 when `b` is larger (saturating subtraction on naturals).
pub open spec fn saturating_diff(a: int, b: int) -> int {
    if a >= b {
        a - b
    } else {
        0
    }
}

/// Whole seconds that the current run has lasted at `now_ms`.
pub open spec fn run_seconds(run_start_ms: Option<u64>, now_ms: u64) -> int {
    match run_start_ms {
        Some(started_at) => saturating_diff(now_ms as int, started_at as int) / 1000,
        None => 0,
    }
}

/// Seconds the timer shows at `now_ms`.
pub open spec fn elapsed_seconds(timer: TrayTimer, now_ms: u64) -> int {
    timer.base_seconds + run_seconds(timer.run_start_ms, now_ms)
}

/// Whether the timer is running.
pub open spec fn is_running(timer: TrayTimer) -> bool {
    timer.run_start_ms is Some
}

impl Default for TrayTimer {
    /// A paused timer at zero.
    fn default() -> (timer: TrayTimer)
        ensures
            timer.base_seconds == 0,
            timer.run_start_ms is None,
    {
        TrayTimer { base_seconds: 0, run_start_ms: None }
    }
}

/// Seconds the timer shows at `now_ms`: the accumulated base plus the whole
/// seconds since the run started (none when `now_ms` lies before the start).
pub fn tray_elapsed_seconds(timer: &TrayTimer, now_ms: u64) -> (seconds: u64)
    requires
        elapsed_seconds(*timer, now_ms) <= u64::MAX,
    ensures
        seconds == elapsed_seconds(*timer, now_ms),
{
    let running: u64 = match timer.run_start_ms {
        Some(started_at) => now_ms.saturating_sub(started_at) / 1000,
        None => 0,
    };
    timer.base_seconds + running
}

/// The state after pausing at `stopped_at`: a running timer folds the whole
/// seconds of its run into the base (saturating at `u64::MAX`) and stops; a
/// paused timer stays as it is.
pub open spec fn paused_at(timer: TrayTimer, stopped_at: u64) -> TrayTimer {
    match timer.run_start_ms {
        Some(started_at) => {
            let total = timer.base_seconds + saturating_diff(stopped_at as int, started_at as int)
                / 1000;
            TrayTimer {
                base_seconds: if total > u64::MAX {
                    u64::MAX
                } else {
                    total as u64
                },
                run_start_ms: None,
            }
        },
        None => timer,
    }
}

/// Pauses the timer at `stopped_at` (milliseconds since the epoch).
pub fn pause_tray_timer_at(timer: &mut TrayTimer, stopped_at: u64)
    ensures
        *final(timer) == paused_at(*old(timer), stopped_at),
{
    if let Some(started_at) = timer.run_start_ms {
        timer.base_seconds = timer.base_seconds.saturating_add(
            stopped_at.saturating_sub(started_at) / 1000,
        );
        timer.run_start_ms = None;
    }
}

/// The run start accepted from the front end: a start later than `now_ms` is
/// moved back to `now_ms`, and a start not after the last time the screen
/// went inactive is dropped, so a sync queued before the screen went off
/// cannot restart a timer that the native side paused.
pub open spec fn accepted_run_start(
    run_start_ms: Option<u64>,
    now_ms: u64,
    last_inactive_at: u64,
) -> Option<u64> {
    match run_start_ms {
        Some(start) => {
            let capped = if start <= now_ms {
                start
            } else {
                now_ms
            };
            if capped > last_inactive_at {
                Some(capped)
            } else {
                None
            }
        },
        None => None,
    }
}

/// Takes over the base and run start that the front end reports.
pub fn sync_tray_timer(
    timer: &mut TrayTimer,
    base_seconds: u64,
    run_start_ms: Option<u64>,
    now_ms: u64,
    last_inactive_at: u64,
)
    ensures
        final(timer).base_seconds == base_seconds,
        final(timer).run_start_ms == accepted_run_start(run_start_ms, now_ms, last_inactive_at),
{
    timer.base_seconds = base_seconds;
    timer.run_start_ms = match run_start_ms {
        Some(start) => {
            let capped = if start <= now_ms {
                start
            } else {
                now_ms
            };
            if capped > last_inactive_at {
                Some(capped)
            } else {
                None
            }
        },
        None => None,
    };
}

} // verus!

verus! {

/// The last time the screen went inactive, as stored (0 until it first
/// happens), turned into the value reported to the front end.
pub fn latest_screen_inactive_at(last_at: u64) -> (latest: Option<u64>)
    ensures
        latest == (if last_at == 0 {
            None
        } else {
            Some(last_at)
        }),
{
    if last_at == 0 {
        None
    } else {
        Some(last_at)
    }
}

} // verus!

verus! {

/// Pausing at `t` keeps the time shown at `t`: afterwards the timer shows
/// that same time at every instant (unless the total exceeds `u64::MAX`,
/// where the base saturates).
pub proof fn lemma_pause_keeps_elapsed(timer: TrayTimer, t: u64, now_ms: u64)
    requires
        elapsed_seconds(timer, t) <= u64::MAX,
    ensures
        !is_running(paused_at(timer, t)),
        elapsed_seconds(paused_at(timer, t), now_ms) == elapsed_seconds(timer, t),
{
}

/// A paused timer shows the same time at every instant.
pub proof fn lemma_paused_timer_is_frozen(timer: TrayTimer, a: u64, b: u64)
    requires
        !is_running(timer),
    ensures
        elapsed_seconds(timer, a) == elapsed_seconds(timer, b),
{
}

/// The time shown never goes backward as the clock advances.
pub proof fn lemma_elapsed_is_monotonic(timer: TrayTimer, a: u64, b: u64)
    requires
        a <= b,
    ensures
        elapsed_seconds(timer, a) <= elapsed_seconds(timer, b),
{
    if let Some(started_at) = timer.run_start_ms {
        let x = saturating_diff(a as int, started_at as int);
        let y = saturating_diff(b as int, started_at as int);
        assert(x <= y);
        vstd::arithmetic::div_mod::lemma_div_is_ordered(x, y, 1000);
    }
}

/// A running timer advances by itself: once its run has started, every
/// further `k` seconds of clock time add exactly `k` to the time shown, with
/// no update from the front end.
pub proof fn lemma_running_timer_advances(timer: TrayTimer, now_ms: u64, k: nat)
    requires
        timer.run_start_ms matches Some(started_at) && started_at <= now_ms,
        now_ms + 1000 * k <= u64::MAX,
    ensures
        elapsed_seconds(timer, (now_ms + 1000 * k) as u64) == elapsed_seconds(timer, now_ms) + k,
{
    let started_at = timer.run_start_ms.unwrap();
    let x = now_ms - started_at;
    assert((now_ms + 1000 * k) as u64 - started_at == x + k * 1000);
    vstd::arithmetic::div_mod::lemma_hoist_over_denominator(x, k as int, 1000);
}

/// Pausing an already paused timer changes nothing.
pub proof fn lemma_pause_is_idempotent(timer: TrayTimer, a: u64, b: u64)
    ensures
        paused_at(paused_at(timer, a), b) == paused_at(timer, a),
{
}

/// A sync whose run start is not after the last time the screen went
/// inactive leaves the timer paused, and a run start that is accepted lies
/// after that time and not in the future.
pub proof fn lemma_stale_sync_cannot_restart(
    run_start_ms: Option<u64>,
    now_ms: u64,
    last_inactive_at: u64,
)
    ensures
        run_start_ms matches Some(start) && start <= last_inactive_at ==> accepted_run_start(
            run_start_ms,
            now_ms,
            last_inactive_at,
        ) is None,
        accepted_run_start(run_start_ms, now_ms, last_inactive_at) matches Some(v) ==> {
            &&& last_inactive_at < v
            &&& v <= now_ms
            &&& run_start_ms matches Some(s)
            &&& v <= s
        },
{
}

} // verus!
