use udpopt::IntervalResult;
use udpopt::TestResult;
use udpopt::mean;
use udpopt::median;

fn create_interval(
    received: u64,
    lost: u64,
    bytes: u64,
    time_ms: u64,
    jitter_us: u64,
    out_of_order: u64,
) -> IntervalResult {
    IntervalResult {
        received,
        lost,
        bytes,
        time_us: time_ms * 1000,
        jitter_us,
        out_of_order,
        recommended_bitrate: 0,
    }
}

#[test]
fn test_from_intervals() {
    let intervals = vec![
        create_interval(100, 0, 8000, 1000, 1000, 0),
        create_interval(100, 0, 16000, 1000, 2000, 1),
        create_interval(100, 0, 24000, 1000, 3000, 2),
        create_interval(100, 0, 32000, 1000, 4000, 3),
    ];

    let result = TestResult::from_intervals(&intervals);

    assert_eq!(result.total_packets, 400);
    assert_eq!(result.total_lost, 0);
    assert_eq!(result.total_bytes, 80000);
    assert_eq!(result.total_out_of_order, 6);
    assert_eq!(result.total_time_us, 4_000_000);

    // Bitrates: 64000, 128000, 192000, 256000
    assert_eq!(result.mean_bitrate, 160000);
    assert_eq!(result.median_bitrate, 160000);

    // Jitters (microseconds): 1000, 2000, 3000, 4000
    assert_eq!(result.mean_jitter_us, 2500);
    assert_eq!(result.median_jitter_us, 2500);
}

#[test]
fn test_interval_result_default() {
    let result = IntervalResult::default();

    assert_eq!(result.received, 0);
    assert_eq!(result.lost, 0);
    assert_eq!(result.bytes, 0);
    assert_eq!(result.jitter_us, 0);
    assert_eq!(result.out_of_order, 0);
    assert_eq!(result.recommended_bitrate, 0);
    assert_eq!(result.time_us, 0);
}

#[test]
fn test_from_intervals_empty_is_all_zero() {
    let result = TestResult::from_intervals(&Vec::new());
    assert_eq!(result.total_packets, 0);
    assert_eq!(result.total_lost, 0);
    assert_eq!(result.total_bytes, 0);
    assert_eq!(result.total_time_us, 0);
    assert_eq!(result.total_out_of_order, 0);
    assert_eq!(result.mean_bitrate, 0);
    assert_eq!(result.median_bitrate, 0);
    assert_eq!(result.mean_jitter_us, 0);
    assert_eq!(result.median_jitter_us, 0);
}

#[test]
fn test_from_intervals_single_interval_identity() {
    // For a single interval both mean and median equal the interval's own
    // bitrate and jitter.
    let intervals = vec![create_interval(50, 2, 12_500, 500, 750, 1)];
    let result = TestResult::from_intervals(&intervals);
    // 12500 bytes * 8 bits over 0.5 s = 200_000 bits/s
    assert_eq!(result.mean_bitrate, 200_000);
    assert_eq!(result.median_bitrate, 200_000);
    assert_eq!(result.mean_jitter_us, 750);
    assert_eq!(result.median_jitter_us, 750);
    assert_eq!(result.total_packets, 50);
    assert_eq!(result.total_lost, 2);
}

#[test]
fn test_mean_rounds_down() {
    assert_eq!(mean(&vec![1, 2]), 1);
    assert_eq!(mean(&vec![]), 0);
    assert_eq!(mean(&vec![7]), 7);
    assert_eq!(mean(&vec![64000, 128000, 192000, 256000]), 160000);
}

#[test]
fn test_median_odd_and_even() {
    assert_eq!(median(&vec![]), 0);
    assert_eq!(median(&vec![9]), 9);
    assert_eq!(median(&vec![3, 1, 2]), 2);
    assert_eq!(median(&vec![4, 1, 3, 2]), 2); // (2 + 3) / 2 rounded down
    assert_eq!(median(&vec![10, 10, 2, 10]), 10);
}
