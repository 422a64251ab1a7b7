use gif_maker::timing::{frame_delay_cs, progress_percent, SAMPLING_RATE_FPS};

#[test]
fn sampling_rate_is_fifteen_frames_per_second() {
    assert_eq!(SAMPLING_RATE_FPS, 15);
}

#[test]
fn delay_for_the_sampling_rate_is_seven_centiseconds() {
    assert_eq!(frame_delay_cs(SAMPLING_RATE_FPS), 7);
}

#[test]
fn delay_is_the_rounded_quotient() {
    assert_eq!(frame_delay_cs(1), 100);
    assert_eq!(frame_delay_cs(10), 10);
    assert_eq!(frame_delay_cs(25), 4);
    assert_eq!(frame_delay_cs(30), 3);
    assert_eq!(frame_delay_cs(40), 3);
    assert_eq!(frame_delay_cs(60), 2);
    assert_eq!(frame_delay_cs(100), 1);
}

#[test]
fn delay_rounds_halves_up() {
    assert_eq!(frame_delay_cs(8), 13);
    assert_eq!(frame_delay_cs(200), 1);
}

#[test]
fn delay_never_drops_below_one_centisecond() {
    assert_eq!(frame_delay_cs(201), 1);
    assert_eq!(frame_delay_cs(1000), 1);
    assert_eq!(frame_delay_cs(u16::MAX), 1);
}

#[test]
fn delay_is_nearest_to_the_true_quotient() {
    for fps in 1u16..=200 {
        let delay = i64::from(frame_delay_cs(fps));
        let fps = i64::from(fps);
        assert!(2 * (delay * fps - 100) <= fps);
        assert!(2 * (100 - delay * fps) < fps);
    }
}

#[test]
fn progress_of_three_frames() {
    assert_eq!(progress_percent(0, 3), 33);
    assert_eq!(progress_percent(1, 3), 66);
    assert_eq!(progress_percent(2, 3), 100);
}

#[test]
fn progress_of_a_single_frame_is_full() {
    assert_eq!(progress_percent(0, 1), 100);
}

#[test]
fn progress_rounds_down() {
    assert_eq!(progress_percent(0, 7), 14);
    assert_eq!(progress_percent(1, 7), 28);
    assert_eq!(progress_percent(2, 7), 42);
    assert_eq!(progress_percent(3, 7), 57);
    assert_eq!(progress_percent(4, 7), 71);
    assert_eq!(progress_percent(5, 7), 85);
    assert_eq!(progress_percent(6, 7), 100);
    assert_eq!(progress_percent(0, 1000), 0);
    assert_eq!(progress_percent(9, 1000), 1);
}

#[test]
fn progress_never_decreases_and_ends_at_hundred() {
    for total in 1usize..=150 {
        let mut last = 0u8;
        for index in 0..total {
            let percent = progress_percent(index, total);
            assert_eq!(usize::from(percent), (index + 1) * 100 / total);
            assert!(percent >= last);
            assert!(percent <= 100);
            last = percent;
        }
        assert_eq!(last, 100);
    }
}

#[test]
fn progress_copes_with_the_largest_counts() {
    assert_eq!(progress_percent(usize::MAX - 1, usize::MAX), 100);
    assert_eq!(progress_percent(0, usize::MAX), 0);
    assert_eq!(progress_percent(usize::MAX / 2, usize::MAX), 50);
}
