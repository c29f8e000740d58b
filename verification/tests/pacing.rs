use render_core::pacing::{frame_interval_nanos, NANOS_PER_SECOND};

#[test]
fn interval_at_144_hz() {
    assert_eq!(frame_interval_nanos(144), 6_944_444);
}

#[test]
fn interval_at_60_hz() {
    assert_eq!(frame_interval_nanos(60), 16_666_666);
}

#[test]
fn interval_at_the_extremes() {
    assert_eq!(NANOS_PER_SECOND, 1_000_000_000);
    assert_eq!(frame_interval_nanos(1), 1_000_000_000);
    assert_eq!(frame_interval_nanos(1_000_000_000), 1);
    assert_eq!(frame_interval_nanos(1_000_000_001), 0);
    assert_eq!(frame_interval_nanos(u32::MAX), 0);
}

#[test]
fn sleeps_of_144_frames_fill_one_second() {
    let total: u64 = (0..144).map(|_| frame_interval_nanos(144) as u64).sum();
    assert_eq!(total, 999_999_936);
    assert!(total <= 1_000_000_000);
    assert!(total > 1_000_000_000 - 144);
    assert!(total >= 900_000_000 && total <= 1_100_000_000);
}

#[test]
fn sleeps_of_one_second_of_frames_never_exceed_it() {
    for rate in [1u32, 2, 3, 7, 24, 30, 60, 75, 120, 144, 240, 1000, 999_999_999] {
        let total = rate as u64 * frame_interval_nanos(rate) as u64;
        assert!(total <= 1_000_000_000);
        assert!(total + rate as u64 > 1_000_000_000);
    }
}
