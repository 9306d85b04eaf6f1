use udpopt::FLAG_DATA;
use udpopt::UdpData;
use udpopt::UdpHeader;

fn feed(data: &mut UdpData, seq: u64, now_us: u64) {
    let header = UdpHeader::new(seq, 0, 0, FLAG_DATA);
    data.process_packet(1500, &header, now_us);
}

#[test]
fn test_udp_data_new() {
    let data = UdpData::new();

    assert_eq!(data.last_seq, None);
    assert_eq!(data.interval_result.received, 0);
    assert_eq!(data.prev_transit_us, None);
    assert_eq!(data.period_lost, 0);
    assert_eq!(data.period_received, 0);
    assert_eq!(data.recommend_pps, 0);
}

#[test]
fn test_process_packet_jitter_calculation() {
    let mut data = UdpData::new();

    // First packet - establishes baseline
    let h1 = UdpHeader::new(0, 1000, 0, FLAG_DATA);
    data.process_packet(1500, &h1, 100_000);

    assert!(data.prev_transit_us.is_some());
    assert_eq!(data.interval_result.jitter_us, 0); // No jitter yet

    // Second packet - should calculate jitter
    let h2 = UdpHeader::new(1, 1000, 50000, FLAG_DATA);
    data.process_packet(1500, &h2, 200_000);

    // Jitter should be non-zero now
    assert!(data.interval_result.jitter_us > 0);
}

#[test]
fn test_process_multiple_packets() {
    let mut data = UdpData::new();

    // Simulate receiving 10 packets with one loss and one out-of-order
    for i in 0..10u64 {
        if i == 3 {
            continue; // Skip packet 3 (loss)
        }

        let seq = if i == 4 {
            5
        } else if i == 5 {
            4
        } else {
            i
        }; // 4 and 5 swapped
        let header = UdpHeader::new(seq, 1000 + i, (i * 1000) as u32, FLAG_DATA);
        data.process_packet(1500, &header, i * 100_000);
    }

    assert_eq!(data.interval_result.received, 9); // Received 9 out of 10
    assert_eq!(data.interval_result.bytes, 13500); // 9 * 1500
    assert!(data.interval_result.lost > 0); // Should detect loss
    assert_eq!(data.interval_result.out_of_order, 1); // One out-of-order
}

#[test]
fn test_large_sequence_numbers() {
    let mut data = UdpData::new();

    let large_seq = u64::MAX - 10;
    let h1 = UdpHeader::new(large_seq, 1000, 0, FLAG_DATA);
    data.process_packet(1500, &h1, 1_000_000);

    let h2 = UdpHeader::new(large_seq + 1, 1000, 1000, FLAG_DATA);
    data.process_packet(1500, &h2, 1_000_000);

    assert_eq!(data.last_seq, Some(large_seq + 1));
    assert_eq!(data.interval_result.lost, 0);
}

#[test]
fn test_calc_bitrate_high_loss() {
    let mut data = UdpData::new();
    data.period_received = 1000;
    data.period_lost = 100; // 10% loss

    data.calc_bitrate(1_000_000);

    // High loss (below 99% received), should reduce rate by 5%
    // actual rate = 1000 packets over 1 second = 1000 pps
    // recommended = 1000 * 95 / 100 = 950
    assert_eq!(data.recommend_pps, 950);
}

#[test]
fn test_calc_bitrate_low_loss_acceptable() {
    let mut data = UdpData::new();
    data.period_received = 1000;
    data.period_lost = 5; // 0.5% loss, very good

    data.calc_bitrate(1_000_000);

    // received percentage = 99.5%: whole part 99 passes the floor, the
    // fractional threshold does not, so back off by 10 pps: 1000 - 10 = 990
    assert_eq!(data.recommend_pps, 990);
}

#[test]
fn test_calc_bitrate_very_low_loss() {
    let mut data = UdpData::new();
    data.period_received = 10000;
    data.period_lost = 1; // 0.01% loss

    data.calc_bitrate(1_000_000);

    // received percentage = 99.99%: whole part 99 passes the floor, the
    // fractional part misses the threshold, so 10000 - 10 = 9990
    assert_eq!(data.recommend_pps, 9990);
}

#[test]
fn test_calc_bitrate_non_one_second_interval() {
    let mut data = UdpData::new();
    data.period_received = 500;
    data.period_lost = 50; // 10% loss

    data.calc_bitrate(500_000); // 0.5 seconds

    // actual rate = 500 / 0.5 s = 1000 pps; high loss, reduce by 5%: 950
    assert_eq!(data.recommend_pps, 950);
}

#[test]
fn test_calc_bitrate_no_loss_holds_steady() {
    let mut data = UdpData::new();
    data.period_received = 400;
    data.period_lost = 0;

    data.calc_bitrate(2_000_000);

    assert_eq!(data.recommend_pps, 200);
    // the window counters reset for the next evaluation
    assert_eq!(data.period_received, 0);
    assert_eq!(data.period_lost, 0);
}

#[test]
fn test_calc_bitrate_no_packets_recommends_zero() {
    let mut data = UdpData::new();
    data.recommend_pps = 123;
    data.calc_bitrate(200_000);
    assert_eq!(data.recommend_pps, 0);
}

#[test]
fn test_get_interval_result() {
    let mut data = UdpData::new();

    // Add some data
    data.interval_result.received = 100;
    data.interval_result.bytes = 150000;
    data.interval_result.lost = 5;
    data.interval_result.jitter_us = 2500;
    data.interval_result.out_of_order = 3;

    // Get and reset
    let result = data.get_interval_result(1_000_000);

    // Check returned values
    assert_eq!(result.received, 100);
    assert_eq!(result.bytes, 150000);
    assert_eq!(result.lost, 5);
    assert_eq!(result.jitter_us, 2500);
    assert_eq!(result.out_of_order, 3);
    assert_eq!(result.time_us, 1_000_000);

    // Check that original is reset
    assert_eq!(data.interval_result.received, 0);
    assert_eq!(data.interval_result.bytes, 0);
    assert_eq!(data.interval_result.lost, 0);
    assert_eq!(data.interval_result.jitter_us, 0);
    assert_eq!(data.interval_result.out_of_order, 0);
}

#[test]
fn test_loss_detection() {
    // stream [0, 1, 2, 5] loses packets 3 and 4
    let mut data = UdpData::new();
    for (i, seq) in [0u64, 1, 2, 5].iter().enumerate() {
        feed(&mut data, *seq, (i as u64) * 1_000);
    }
    assert_eq!(data.interval_result.lost, 2);
    assert_eq!(data.interval_result.received, 4);
    assert_eq!(data.interval_result.out_of_order, 0);
    assert_eq!(data.last_seq, Some(5));
}

#[test]
fn test_out_of_order_no_regression() {
    // stream [0, 1, 2, 1]: one out-of-order arrival, the marker stays at 2
    let mut data = UdpData::new();
    for (i, seq) in [0u64, 1, 2, 1].iter().enumerate() {
        feed(&mut data, *seq, (i as u64) * 1_000);
    }
    assert_eq!(data.interval_result.out_of_order, 1);
    assert_eq!(data.last_seq, Some(2));
    assert_eq!(data.interval_result.lost, 0);
}

#[test]
fn test_duplicate_neutrality() {
    // stream [1, 1]: the duplicate is counted as received and nothing else
    let mut data = UdpData::new();
    feed(&mut data, 1, 0);
    feed(&mut data, 1, 1_000);
    assert_eq!(data.interval_result.received, 2);
    assert_eq!(data.interval_result.lost, 0);
    assert_eq!(data.interval_result.out_of_order, 0);
    assert_eq!(data.last_seq, Some(1));
}

#[test]
fn test_jitter_converges_to_constant_delta() {
    // Packets stamped at a fixed cadence but arriving with alternating
    // transit times 5000 us apart: the estimate climbs toward 5000 and
    // never overshoots it.
    let mut data = UdpData::new();
    let mut previous = 0u64;
    for i in 0..200u64 {
        let h = UdpHeader::new(i, 0, (i * 10_000) as u32, FLAG_DATA);
        let extra = if i % 2 == 0 { 0 } else { 5_000 };
        let arrival = i * 10_000 + extra;
        data.process_packet(1500, &h, arrival);
        assert!(data.interval_result.jitter_us <= 5_000);
        if i > 0 {
            assert!(data.interval_result.jitter_us >= previous);
        }
        previous = data.interval_result.jitter_us;
    }
    // within 16 of the constant deviation after enough packets
    assert!(data.interval_result.jitter_us >= 5_000 - 16);
}
