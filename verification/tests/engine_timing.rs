use nucleus::engine::{FpsSample, FrameTimer, DURATION_MAX_NANOS, NANOS_PER_SEC};

const MS: u128 = 1_000_000;

#[test]
fn new_timer_is_empty() {
    let t = FrameTimer::new();
    assert_eq!(t.frame_count(), 0);
    assert_eq!(t.pending_nanos(), 0);
    assert_eq!(t.last_sample(), None);
}

#[test]
fn frames_accumulate_below_a_second() {
    let mut t = FrameTimer::new();
    assert!(!t.update(16 * MS));
    assert!(!t.update(16 * MS));
    assert!(!t.update(16 * MS));
    assert_eq!(t.frame_count(), 3);
    assert_eq!(t.pending_nanos(), 48 * MS);
    assert_eq!(t.last_sample(), None);
}

#[test]
fn sixty_frames_at_sixty_hertz_give_one_sample() {
    let mut t = FrameTimer::new();
    let frame: u128 = 16_666_667;
    for _ in 0..59 {
        assert!(!t.update(frame));
    }
    assert_eq!(t.frame_count(), 59);
    assert_eq!(t.pending_nanos(), 59 * frame);
    assert!(t.update(frame));
    assert_eq!(t.last_sample(), Some(FpsSample { frames: 60, window_nanos: 1_000_000_020 }));
    assert_eq!(t.frame_count(), 0);
    assert_eq!(t.pending_nanos(), 20);
}

#[test]
fn exactly_one_second_completes_the_window() {
    let mut t = FrameTimer::new();
    assert!(t.update(NANOS_PER_SEC));
    assert_eq!(t.last_sample(), Some(FpsSample { frames: 1, window_nanos: NANOS_PER_SEC }));
    assert_eq!(t.pending_nanos(), 0);
    assert_eq!(t.frame_count(), 0);
}

#[test]
fn long_frame_takes_off_only_one_second() {
    let mut t = FrameTimer::new();
    assert!(t.update(3 * NANOS_PER_SEC));
    assert_eq!(t.last_sample(), Some(FpsSample { frames: 1, window_nanos: 3 * NANOS_PER_SEC }));
    assert_eq!(t.pending_nanos(), 2 * NANOS_PER_SEC);
    assert!(t.update(0));
    assert_eq!(t.last_sample(), Some(FpsSample { frames: 1, window_nanos: 2 * NANOS_PER_SEC }));
    assert_eq!(t.pending_nanos(), NANOS_PER_SEC);
}

#[test]
fn sample_kept_until_next_window() {
    let mut t = FrameTimer::new();
    assert!(t.update(1500 * MS));
    let first = t.last_sample();
    assert!(!t.update(100 * MS));
    assert_eq!(t.last_sample(), first);
    assert_eq!(t.frame_count(), 1);
    assert_eq!(t.pending_nanos(), 600 * MS);
}

#[test]
fn time_is_conserved_across_a_sample() {
    let mut t = FrameTimer::new();
    t.update(700 * MS);
    let before = t.pending_nanos();
    let delta = 450 * MS;
    let measured = t.update(delta);
    let taken = if measured { NANOS_PER_SEC } else { 0 };
    assert_eq!(t.pending_nanos() + taken, before + delta);
}

#[test]
fn frames_are_conserved_across_a_sample() {
    let mut t = FrameTimer::new();
    t.update(400 * MS);
    t.update(400 * MS);
    let before = t.frame_count();
    assert!(t.update(400 * MS));
    let handed = t.last_sample().unwrap().frames;
    assert_eq!(t.frame_count() + handed, before + 1);
}

#[test]
fn pending_stays_below_a_second_at_steady_pace() {
    let mut t = FrameTimer::new();
    for _ in 0..100 {
        t.update(333 * MS);
        assert!(t.pending_nanos() < NANOS_PER_SEC);
    }
}

#[test]
fn longest_duration_is_accepted() {
    let mut t = FrameTimer::new();
    assert!(t.update(DURATION_MAX_NANOS));
    assert_eq!(t.pending_nanos(), DURATION_MAX_NANOS - NANOS_PER_SEC);
}

