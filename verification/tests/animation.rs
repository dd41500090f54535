use rscat::AnimationClock;

#[test]
fn wraps_frame_indices() {
    let mut clock = AnimationClock::default();

    assert_eq!(clock.next_frame(3), 0);
    assert_eq!(clock.next_frame(3), 1);
    assert_eq!(clock.next_frame(3), 2);
    assert_eq!(clock.next_frame(3), 0);
}

#[test]
fn no_frames_rewinds_the_clock() {
    let mut clock = AnimationClock::default();
    assert_eq!(clock.next_frame(4), 0);
    assert_eq!(clock.next_frame(4), 1);
    assert_eq!(clock.next_frame(0), 0);
    assert_eq!(clock.next_frame(4), 0);
}

#[test]
fn reset_starts_over() {
    let mut clock = AnimationClock::default();
    clock.next_frame(5);
    clock.next_frame(5);
    clock.reset();
    assert_eq!(clock.next_frame(5), 0);
}

#[test]
fn shrinking_frame_count_wraps_the_position() {
    let mut clock = AnimationClock::default();
    for _ in 0..7 {
        clock.next_frame(10);
    }
    // position 7, now only 5 frames: 7 % 5
    assert_eq!(clock.next_frame(5), 2);
    // position is (7 + 1) % 5 = 3
    assert_eq!(clock.next_frame(5), 3);
}

#[test]
fn tick_k_after_reset_shows_frame_k_mod_n() {
    let mut clock = AnimationClock::default();
    for k in 0..25usize {
        assert_eq!(clock.next_frame(10), k % 10);
    }
}

#[test]
fn frames_wait_for_their_interval() {
    assert!(!rscat::animation::frame_is_due(24_999_999, 25_000_000));
    assert!(rscat::animation::frame_is_due(25_000_000, 25_000_000));
    assert!(rscat::animation::frame_is_due(600_000_000, 500_000_000));
}
