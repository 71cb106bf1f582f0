use typing_trainer::metrics::clock_tick;
use typing_trainer::metrics::compute_accuracy;
use typing_trainer::metrics::compute_wpm;
use typing_trainer::metrics::remaining_mmss;
use typing_trainer::metrics::remaining_secs;
use typing_trainer::metrics::ClockTick;

#[test]
fn wpm_is_zero_before_any_time_elapsed() {
    assert_eq!(compute_wpm(0, 0), 0);
    assert_eq!(compute_wpm(500, 0), 0);
}

#[test]
fn accuracy_is_perfect_before_any_keystroke() {
    assert_eq!(compute_accuracy(0, 0), 100);
    // a skewed snapshot with errors but no typed count still reads 100
    assert_eq!(compute_accuracy(0, 5), 100);
}

#[test]
fn wpm_follows_the_five_character_convention() {
    // 300 characters in a minute: 60 words of five characters
    assert_eq!(compute_wpm(300, 60), 60);
    // 25 characters in 30 seconds: 5 words in half a minute
    assert_eq!(compute_wpm(25, 30), 10);
    // floor(7 * 12 / 13)
    assert_eq!(compute_wpm(7, 13), 6);
}

#[test]
fn accuracy_floors_the_percentage() {
    assert_eq!(compute_accuracy(10, 2), 80);
    assert_eq!(compute_accuracy(3, 1), 66);
    assert_eq!(compute_accuracy(1, 0), 100);
    // more errors than keystrokes in a skewed snapshot floors at zero
    assert_eq!(compute_accuracy(2, 3), 0);
}

#[test]
fn clock_expires_on_the_very_tick_the_duration_elapses() {
    assert_eq!(clock_tick(30, 30, 100, 0), ClockTick::Expired);
    assert_eq!(clock_tick(31, 30, 100, 0), ClockTick::Expired);
    match clock_tick(29, 30, 100, 0) {
        ClockTick::Expired => panic!("one second early is not expiry"),
        ClockTick::Report { .. } => {}
    }
}

#[test]
fn clock_reports_the_derived_metrics() {
    match clock_tick(10, 30, 50, 10) {
        ClockTick::Report { wpm, accuracy, remaining_secs } => {
            assert_eq!(wpm, 60);
            assert_eq!(accuracy, 80);
            assert_eq!(remaining_secs, 20);
        }
        ClockTick::Expired => panic!("the session still runs"),
    }
}

#[test]
fn remaining_time_floors_at_zero() {
    assert_eq!(remaining_secs(30, 12), 18);
    assert_eq!(remaining_secs(30, 30), 0);
    assert_eq!(remaining_secs(30, 45), 0);
}

#[test]
fn remaining_splits_into_minutes_and_seconds() {
    assert_eq!(remaining_mmss(90), (1, 30));
    assert_eq!(remaining_mmss(29), (0, 29));
    assert_eq!(remaining_mmss(0), (0, 0));
}
