use vstd::prelude::*;
use crate::tray_timer::{TrayTimer, elapsed_seconds};

verus! {

/// The character of a decimal digit.
pub open spec fn digit_char(d: int) -> char {
    if d == 0 {
        '0'
    } else if d == 1 {
        '1'
    } else if d == 2 {
        '2'
    } else if d == 3 {
        '3'
    } else if d == 4 {
        '4'
    } else if d == 5 {
        '5'
    } else if d == 6 {
        '6'
    } else if d == 7 {
        '7'
    } else if d == 8 {
        '8'
    } else {
        '9'
    }
}

/// The decimal numeral of `n`, without leading zeros.
pub open spec fn decimal(n: nat) -> Seq<char>
    decreases n,
{
    if n < 10 {
        seq![digit_char(n as int)]
    } else {
        decimal(n / 10) + seq![digit_char((n % 10) as int)]
    }
}

/// `n` (below 100) written with two digits, padded with a leading zero.
pub open spec fn two_digits(n: nat) -> Seq<char> {
    seq![digit_char((n / 10) as int), digit_char((n % 10) as int)]
}

/// The menu-bar label of a duration in seconds: whole hours, a colon, and
/// the minutes within the hour as two digits (`2:23`).
pub open spec fn clock_label(seconds: nat) -> Seq<char> {
    decimal(seconds / 3600) + seq![':'] + two_digits((seconds % 3600) / 60)
}

/// The label shown while the timer is paused.
pub open spec fn paused_label() -> Seq<char> {
    seq!['L', 'a', 'v', 'a']
}

/// The menu-bar title of the timer at `now_ms`.
pub open spec fn timer_title(timer: TrayTimer, now_ms: u64) -> Seq<char> {
    match timer.run_start_ms {
        None => paused_label(),
        Some(_) => clock_label(elapsed_seconds(timer, now_ms) as nat),
    }
}

fn digit_str(d: u64) -> (s: &'static str)
    requires
        d < 10,
    ensures
        s@ == seq![digit_char(d as int)],
{
    if d == 0 {
        proof { reveal_strlit("0"); }
        "0"
    } else if d == 1 {
        proof { reveal_strlit("1"); }
        "1"
    } else if d == 2 {
        proof { reveal_strlit("2"); }
        "2"
    } else if d == 3 {
        proof { reveal_strlit("3"); }
        "3"
    } else if d == 4 {
        proof { reveal_strlit("4"); }
        "4"
    } else if d == 5 {
        proof { reveal_strlit("5"); }
        "5"
    } else if d == 6 {
        proof { reveal_strlit("6"); }
        "6"
    } else if d == 7 {
        proof { reveal_strlit("7"); }
        "7"
    } else if d == 8 {
        proof { reveal_strlit("8"); }
        "8"
    } else {
        proof { reveal_strlit("9"); }
        "9"
    }
}

/// Appends the decimal numeral of `n` to `out`.
pub fn push_decimal(out: &mut String, n: u64)
    ensures
        final(out)@ == old(out)@ + decimal(n as nat),
    decreases n,
{
    if n >= 10 {
        push_decimal(out, n / 10);
    }
    out.append(digit_str(n % 10));
    assert(out@ =~= old(out)@ + decimal(n as nat));
}

/// The menu-bar label of `seconds`: hours, a colon, two-digit minutes.
pub fn format_clock_label(seconds: u64) -> (label: String)
    ensures
        label@ == clock_label(seconds as nat),
{
    let hours = seconds / 3600;
    let minutes = (seconds % 3600) / 60;
    let mut label = String::new();
    push_decimal(&mut label, hours);
    proof { reveal_strlit(":"); }
    label.append(":");
    label.append(digit_str(minutes / 10));
    label.append(digit_str(minutes % 10));
    assert(label@ =~= clock_label(seconds as nat));
    label
}

/// The menu-bar title of the timer at `now_ms`: `Lava` while paused, so the
/// app keeps a visible entry, and the elapsed time as `h:mm` while running.
pub fn tray_timer_title(timer: &TrayTimer, now_ms: u64) -> (title: String)
    requires
        timer.run_start_ms is Some ==> elapsed_seconds(*timer, now_ms) <= u64::MAX,
    ensures
        title@ == timer_title(*timer, now_ms),
{
    if timer.run_start_ms.is_none() {
        proof { reveal_strlit("Lava"); }
        return String::from_str("Lava");
    }
    let seconds = crate::tray_timer::tray_elapsed_seconds(timer, now_ms);
    format_clock_label(seconds)
}

} // verus!

verus! {

/// A paused timer always shows `Lava`, so the menu bar keeps a visible entry.
pub proof fn lemma_paused_title(timer: TrayTimer, now_ms: u64)
    requires
        timer.run_start_ms is None,
    ensures
        timer_title(timer, now_ms) == paused_label(),
{
}

/// After pausing, the title is `Lava` whatever the clock says.
pub proof fn lemma_title_after_pause(timer: TrayTimer, stopped_at: u64, now_ms: u64)
    ensures
        timer_title(crate::tray_timer::paused_at(timer, stopped_at), now_ms) == paused_label(),
{
}

/// The label changes only when the whole minutes change: two durations in
/// the same minute show the same label.
pub proof fn lemma_label_changes_by_minute(a: nat, b: nat)
    requires
        a / 60 == b / 60,
    ensures
        clock_label(a) == clock_label(b),
{
    let m = a / 60;
    vstd::arithmetic::div_mod::lemma_fundamental_div_mod(a as int, 60);
    vstd::arithmetic::div_mod::lemma_fundamental_div_mod(b as int, 60);
    assert(a / 3600 == m / 60 && b / 3600 == m / 60) by {
        vstd::arithmetic::div_mod::lemma_div_denominator(a as int, 60, 60);
        vstd::arithmetic::div_mod::lemma_div_denominator(b as int, 60, 60);
    }
    assert((a % 3600) / 60 == m % 60 && (b % 3600) / 60 == m % 60) by {
        vstd::arithmetic::div_mod::lemma_breakdown(a as int, 60, 60);
        vstd::arithmetic::div_mod::lemma_breakdown(b as int, 60, 60);
    }
}

} // verus!
