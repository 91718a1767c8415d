use train_game::animation::next_frame;

#[test]
fn next_frame_advances_and_wraps() {
    assert_eq!(next_frame(0, 3), 1);
    assert_eq!(next_frame(1, 3), 2);
    assert_eq!(next_frame(2, 3), 0);
    assert_eq!(next_frame(0, 1), 0);
}

#[test]
fn next_frame_past_the_end_keeps_counting() {
    // Only the frame right before `frames` wraps.
    assert_eq!(next_frame(5, 3), 6);
}

#[test]
fn animation_cycles_back_to_start() {
    for start in 0..4usize {
        let mut frame = start;
        for _ in 0..4 {
            frame = next_frame(frame, 4);
            assert!(frame < 4);
        }
        assert_eq!(frame, start);
    }
}
