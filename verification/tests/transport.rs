use constellation_display::transport::{
    Status, Transport, NORMAL_RATE, TICKS_PER_SECOND, WALL_TICKS_PER_SECOND,
};

const SECOND: u64 = 1_000_000;
const NS: i64 = 1_000_000_000;

#[test]
fn units_agree() {
    assert_eq!(TICKS_PER_SECOND, NS);
    assert_eq!(WALL_TICKS_PER_SECOND, SECOND);
    assert_eq!(NORMAL_RATE as i128 * WALL_TICKS_PER_SECOND as i128, TICKS_PER_SECOND as i128);
}

#[test]
fn status_codes() {
    assert_eq!(Status::Stopped.code(), 0);
    assert_eq!(Status::Playing.code(), 1);
    assert_eq!(Status::Paused.code(), 2);
}

#[test]
fn new_clock_is_stopped_at_zero() {
    let t = Transport::new();
    assert_eq!(t.status(), Status::Stopped);
    assert_eq!(t.rate(), NORMAL_RATE);
    assert_eq!(t.now_virtual(0), 0);
    assert_eq!(t.now_virtual(5 * SECOND), 0);
}

#[test]
fn play_from_position_advances_in_real_time() {
    let mut t = Transport::new();
    t.play(0, Some(12 * NS));
    assert_eq!(t.status(), Status::Playing);
    assert_eq!(t.now_virtual(0), 12 * NS);
    assert_eq!(t.now_virtual(SECOND), 13 * NS);
    assert_eq!(t.now_virtual(SECOND + 1), 13 * NS + 1_000);
}

#[test]
fn play_without_position_resumes_from_base() {
    let mut t = Transport::new();
    t.seek(0, 4 * NS);
    t.play(10 * SECOND, None);
    assert_eq!(t.now_virtual(10 * SECOND), 4 * NS);
    assert_eq!(t.now_virtual(11 * SECOND), 5 * NS);
}

#[test]
fn pause_then_play_resumes_where_it_paused() {
    let mut t = Transport::new();
    t.play(0, Some(12 * NS));
    t.pause(SECOND);
    assert_eq!(t.status(), Status::Paused);
    assert_eq!(t.now_virtual(SECOND), 13 * NS);
    assert_eq!(t.now_virtual(3 * SECOND), 13 * NS);
    t.play(3 * SECOND, None);
    assert_eq!(t.status(), Status::Playing);
    assert_eq!(t.now_virtual(3 * SECOND), 13 * NS);
    assert_eq!(t.now_virtual(3 * SECOND + 500_000), 13 * NS + NS / 2);
}

#[test]
fn pause_while_paused_changes_nothing() {
    let mut t = Transport::new();
    t.play(0, Some(NS));
    t.pause(2 * SECOND);
    t.pause(9 * SECOND);
    assert_eq!(t.status(), Status::Paused);
    assert_eq!(t.now_virtual(20 * SECOND), 3 * NS);
}

#[test]
fn play_while_playing_restarts_without_counting_twice() {
    let mut t = Transport::new();
    t.play(0, Some(0));
    t.play(2 * SECOND, None);
    assert_eq!(t.now_virtual(2 * SECOND), 0);
    assert_eq!(t.now_virtual(3 * SECOND), NS);
    t.play(3 * SECOND, Some(7 * NS));
    assert_eq!(t.now_virtual(4 * SECOND), 8 * NS);
}

#[test]
fn rate_change_keeps_time_continuous() {
    let mut t = Transport::new();
    t.play(0, Some(0));
    assert_eq!(t.now_virtual(SECOND), NS);
    t.set_rate(SECOND, 2 * NORMAL_RATE);
    assert_eq!(t.rate(), 2 * NORMAL_RATE);
    assert_eq!(t.now_virtual(SECOND), NS);
    assert_eq!(t.now_virtual(2 * SECOND), 3 * NS);
}

#[test]
fn rate_change_at_rest_only_changes_the_rate() {
    let mut t = Transport::new();
    t.seek(0, 5 * NS);
    t.set_rate(SECOND, NORMAL_RATE / 2);
    assert_eq!(t.status(), Status::Stopped);
    assert_eq!(t.now_virtual(9 * SECOND), 5 * NS);
    t.play(10 * SECOND, None);
    assert_eq!(t.now_virtual(12 * SECOND), 6 * NS);
}

#[test]
fn negative_rate_runs_backwards() {
    let mut t = Transport::new();
    t.set_rate(0, -NORMAL_RATE);
    t.play(0, Some(10 * NS));
    assert_eq!(t.now_virtual(4 * SECOND), 6 * NS);
}

#[test]
fn stop_resets_to_zero() {
    let mut t = Transport::new();
    t.play(0, Some(12 * NS));
    t.stop();
    assert_eq!(t.status(), Status::Stopped);
    assert_eq!(t.now_virtual(0), 0);
    assert_eq!(t.now_virtual(100 * SECOND), 0);
    t.pause(101 * SECOND);
    assert_eq!(t.now_virtual(200 * SECOND), 0);
    t.set_rate(201 * SECOND, 3 * NORMAL_RATE);
    assert_eq!(t.now_virtual(300 * SECOND), 0);
}

#[test]
fn seek_after_stop_moves_the_clock() {
    let mut t = Transport::new();
    t.stop();
    t.seek(0, 5 * NS);
    assert_eq!(t.status(), Status::Stopped);
    assert_eq!(t.now_virtual(3 * SECOND), 5 * NS);
}

#[test]
fn seek_while_playing_keeps_playing() {
    let mut t = Transport::new();
    t.play(0, Some(0));
    t.seek(5 * SECOND, 100 * NS);
    assert_eq!(t.status(), Status::Playing);
    assert_eq!(t.now_virtual(5 * SECOND), 100 * NS);
    assert_eq!(t.now_virtual(6 * SECOND), 101 * NS);
}

#[test]
fn seek_while_paused_stays_paused() {
    let mut t = Transport::new();
    t.play(0, None);
    t.pause(SECOND);
    t.seek(2 * SECOND, 42 * NS);
    assert_eq!(t.status(), Status::Paused);
    assert_eq!(t.now_virtual(10 * SECOND), 42 * NS);
}

#[test]
fn seek_to_negative_time_is_allowed() {
    let mut t = Transport::new();
    t.play(0, None);
    t.seek(0, -2 * NS);
    assert_eq!(t.now_virtual(0), -2 * NS);
    assert_eq!(t.now_virtual(3 * SECOND), NS);
}

#[test]
fn a_wall_clock_that_steps_back_counts_as_no_time_passed() {
    let mut t = Transport::new();
    t.play(10 * SECOND, Some(NS));
    assert_eq!(t.now_virtual(9 * SECOND), NS);
}

#[test]
fn time_saturates_at_the_ends_of_its_range() {
    let mut t = Transport::new();
    t.play(0, Some(i64::MAX - 5));
    assert_eq!(t.now_virtual(1), i64::MAX);
    t.pause(1);
    assert_eq!(t.now_virtual(1), i64::MAX);
    let mut u = Transport::new();
    u.set_rate(0, i64::MIN);
    u.play(0, Some(i64::MIN));
    assert_eq!(u.now_virtual(u64::MAX), i64::MIN);
    let mut v = Transport::new();
    v.set_rate(0, i64::MAX);
    v.play(0, Some(i64::MAX));
    assert_eq!(v.now_virtual(u64::MAX), i64::MAX);
}

#[test]
fn time_never_runs_backwards_while_playing_forwards() {
    let mut t = Transport::new();
    t.play(0, Some(0));
    let mut last = t.now_virtual(0);
    let mut now: u64 = 0;
    let rates = [NORMAL_RATE, 0, 2 * NORMAL_RATE, 1, 250];
    for step in 0..50u64 {
        now += 37_123 * (step % 7);
        if step % 5 == 0 {
            t.set_rate(now, rates[(step / 5) as usize % rates.len()]);
        }
        if step % 11 == 10 {
            t.pause(now);
        }
        let seen = t.now_virtual(now);
        assert!(seen >= last);
        last = seen;
    }
}
