use tomography::perfecter::{Perfect, PerfecterProvider};
use tomography::timer::{after_action, sleep_duration, TimerAction};
use tomography::Perfecter;

const SECOND: u64 = 1_000_000_000;

#[test]
fn rescale_halves_when_twice_the_cadence_elapsed() {
    let p = Perfecter::new(SECOND, 2 * SECOND);
    assert_eq!(p.perfect(&100u64), 50);
    assert_eq!(p.expected_duration(), SECOND);
    assert_eq!(p.actual_duration(), 2 * SECOND);
}

#[test]
fn rescale_rounds_to_nearest() {
    // 1 * 1 / 2 = 0.5 rounds up
    assert_eq!(Perfecter::new(1, 2).perfect(&1u64), 1);
    // 1 * 1 / 3 = 0.33 rounds down
    assert_eq!(Perfecter::new(1, 3).perfect(&1u64), 0);
    // 2 * 1 / 3 = 0.67 rounds up
    assert_eq!(Perfecter::new(1, 3).perfect(&2u64), 1);
    // 7 * 1000 / 999 = 7.007 rounds down
    assert_eq!(Perfecter::new(1000, 999).perfect(&7u64), 7);
}

#[test]
fn rescale_is_exact_for_large_values() {
    let v: u64 = 1 << 63;
    // 2^63 * 3 / 2 = 3 * 2^62
    assert_eq!(Perfecter::new(3, 2).perfect(&v), 3u64 << 62);
    // (2^63 + 1) * 999_999_999 / 1_000_000_000, computed in u128
    let w: u64 = (1 << 63) + 1;
    let n = w as u128 * 999_999_999u128;
    let expected = ((2 * n + 1_000_000_000) / 2_000_000_000) as u64;
    assert_eq!(Perfecter::new(999_999_999, 1_000_000_000).perfect(&w), expected);
    assert_eq!(Perfecter::new(SECOND, SECOND).perfect(&u64::MAX), u64::MAX);
}

#[test]
fn rescale_zero_elapsed_keeps_value() {
    assert_eq!(Perfecter::new(SECOND, 0).perfect(&12345u64), 12345);
    assert_eq!(Perfecter::new(SECOND, 0).perfect(&77usize), 77);
}

#[test]
fn rescale_truncates_to_destination_width() {
    // 2 * (2^32 - 1) keeps its low 32 bits
    assert_eq!(Perfecter::new(2, 1).perfect(&u32::MAX), u32::MAX - 1);
    // 600 keeps its low 8 bits
    assert_eq!(Perfecter::new(3, 1).perfect(&200u8), 88);
    assert_eq!(Perfecter::new(3, 1).perfect(&30_000u16), 24464);
    assert_eq!(Perfecter::new(3, 2).perfect(&10usize), 15);
    assert_eq!(Perfect::perfect(&10u64, &Perfecter::new(3, 2)), 15);
}

#[test]
fn steady_rate_counter_is_normalized_whatever_the_jitter() {
    // 100 units per second, cadence of one second
    for actual_ms in [1000u64, 1370, 999, 2500, 40] {
        let delta = 100 * actual_ms / 1000;
        let p = Perfecter::new(SECOND, actual_ms * 1_000_000);
        let got = p.perfect(&delta);
        assert!(got.abs_diff(100) <= 100_000 / (actual_ms * 100) + 1, "{} {}", actual_ms, got);
    }
    assert_eq!(Perfecter::new(SECOND, 1_370_000_000).perfect(&137u64), 100);
    assert_eq!(Perfecter::new(SECOND, 2_500_000_000).perfect(&250u64), 100);
}

#[test]
fn clock_first_tick_primes() {
    let mut c = PerfecterProvider::new(SECOND);
    assert!(c.get_at(100).is_none());
    let p = c.get_at(350).unwrap();
    assert_eq!(p.expected_duration(), SECOND);
    assert_eq!(p.actual_duration(), 250);
    let p = c.get_at(1350).unwrap();
    assert_eq!(p.actual_duration(), 1000);
}

#[test]
fn clock_two_ticks_at_once_report_zero() {
    let mut c = PerfecterProvider::new(SECOND);
    assert!(c.get_at(500).is_none());
    assert_eq!(c.get_at(500).unwrap().actual_duration(), 0);
    assert_eq!(c.get_at(500).unwrap().actual_duration(), 0);
}

#[test]
fn clock_going_backwards_reports_zero() {
    let mut c = PerfecterProvider::new(SECOND);
    assert!(c.get_at(900).is_none());
    assert_eq!(c.get_at(400).unwrap().actual_duration(), 0);
    assert_eq!(c.get_at(700).unwrap().actual_duration(), 300);
}

#[test]
fn real_clock_immediate_second_tick_is_near_zero() {
    let mut c = PerfecterProvider::new(SECOND);
    assert!(c.get().is_none());
    let p = c.get().unwrap();
    assert_eq!(p.expected_duration(), SECOND);
    assert!(p.actual_duration() < SECOND / 10);
}

#[test]
fn timer_sleeps_out_the_cadence() {
    assert_eq!(sleep_duration(1000, 300), 700);
    assert_eq!(sleep_duration(1000, 1000), 0);
    assert_eq!(sleep_duration(1000, 1500), 0);
    assert_eq!(after_action(false, 1000, 250), TimerAction::Sleep(750));
    assert_eq!(after_action(false, 1000, 4000), TimerAction::Sleep(0));
    assert_eq!(after_action(true, 1000, 250), TimerAction::Stop);
}

#[test]
fn rescale_signed_rounds_halves_away_from_zero() {
    // -1 * 7 / 2 = -3.5
    assert_eq!(Perfecter::new(7, 2).perfect(&-1i64), -4);
    // 1 * 7 / 2 = 3.5
    assert_eq!(Perfecter::new(7, 2).perfect(&1i64), 4);
    // -1 / 3 = -0.33
    assert_eq!(Perfecter::new(1, 3).perfect(&-1i32), 0);
    // -2 / 3 = -0.67
    assert_eq!(Perfecter::new(1, 3).perfect(&-2isize), -1);
    assert_eq!(Perfecter::new(1, 1).perfect(&i64::MIN), i64::MIN);
    assert_eq!(Perfecter::new(5, 0).perfect(&-9i16), -9);
}

#[test]
fn rescale_signed_truncates_to_destination_width() {
    // -200 wraps to 56 in eight bits
    assert_eq!(Perfecter::new(2, 1).perfect(&-100i8), 56);
    // 2 * (2^63 - 1) wraps to -2
    assert_eq!(Perfecter::new(2, 1).perfect(&i64::MAX), -2);
    // 3 * 20000 = 60000 wraps to -5536
    assert_eq!(Perfecter::new(3, 1).perfect(&20_000i16), -5536);
}
