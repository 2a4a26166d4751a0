use motor_driver::channels::channel_duties;

#[test]
fn positive_percentage_goes_to_the_first_channel() {
    assert_eq!(channel_duties(20, 65416), (13083, 0));
    assert_eq!(channel_duties(100, 65416), (65416, 0));
    assert_eq!(channel_duties(1, 65535), (655, 0));
}

#[test]
fn negative_percentage_goes_to_the_second_channel() {
    assert_eq!(channel_duties(-20, 65416), (0, 13083));
    assert_eq!(channel_duties(-100, 65416), (0, 65416));
    assert_eq!(channel_duties(-1, 65535), (0, 655));
}

#[test]
fn zero_leaves_both_channels_at_zero() {
    assert_eq!(channel_duties(0, 65416), (0, 0));
    assert_eq!(channel_duties(0, 0), (0, 0));
}

#[test]
fn percentages_beyond_one_hundred_count_as_one_hundred() {
    assert_eq!(channel_duties(101, 1000), (1000, 0));
    assert_eq!(channel_duties(i16::MAX, 65535), (65535, 0));
    assert_eq!(channel_duties(-101, 1000), (0, 1000));
    assert_eq!(channel_duties(i16::MIN, 65535), (0, 65535));
}

#[test]
fn channel_duties_never_exceed_the_maximum() {
    for percent in -130..=130i16 {
        for max in [0u16, 1, 99, 1000, 65416, 65535] {
            let (first, second) = channel_duties(percent, max);
            assert!(first <= max);
            assert!(second <= max);
            assert!(first == 0 || second == 0);
        }
    }
}
