use sparsnas::{DecodedReading, FrameOutcome, MetricsSnapshot, MetricsUpdate, SequenceTracker, SparsnasMetrics};

fn decoded(pulse_count: u32, packet_seq: u16, power: u32) -> FrameOutcome {
    FrameOutcome::Decoded(DecodedReading { pulse_count, packet_seq, power })
}

fn run(outcomes: &[FrameOutcome]) -> (SequenceTracker, MetricsSnapshot) {
    let mut tracker = SequenceTracker::new();
    let mut m = MetricsSnapshot::new();
    for (i, o) in outcomes.iter().enumerate() {
        tracker.receive(&mut m, o, 1_000 + i as u64);
    }
    (tracker, m)
}

#[test]
fn three_frames_with_gap() {
    let (tracker, m) = run(&[decoded(100, 5, 10), decoded(101, 6, 11), decoded(107, 9, 12)]);
    assert_eq!(m.rcv_packets, 3);
    assert_eq!(m.missed_packets, 2);
    assert_eq!(m.pulses, 107);
    assert_eq!(m.current_power, 12);
    assert_eq!(m.decode_errors, 0);
    assert_eq!(m.bad_crc_errors, 0);
    assert_eq!(m.last_packet_timestamp, 1_002);
    assert_eq!(tracker.last_seq, Some(9));
}

#[test]
fn three_frames_with_gap_on_shared_store() {
    let store = SparsnasMetrics::new();
    let mut tracker = SequenceTracker::new();
    for (o, now) in [(decoded(100, 5, 10), 7u64), (decoded(101, 6, 11), 8), (decoded(107, 9, 12), 9)] {
        let u = tracker.on_frame(&o, now);
        store.apply(&u);
    }
    let s = store.snapshot();
    assert_eq!(s.rcv_packets, 3);
    assert_eq!(s.missed_packets, 2);
    assert_eq!(s.pulses, 107);
    assert_eq!(s.last_packet_timestamp, 9);
    assert_eq!(s.decode_errors, 0);
    assert_eq!(s.bad_crc_errors, 0);
}

#[test]
fn contiguous_sequence_across_wrap_misses_nothing() {
    let (_, m) = run(&[decoded(1, 65534, 0), decoded(2, 65535, 0), decoded(3, 0, 0), decoded(4, 1, 0)]);
    assert_eq!(m.missed_packets, 0);
    assert_eq!(m.rcv_packets, 4);
}

#[test]
fn gap_adds_its_size() {
    let (_, m) = run(&[decoded(1, 10, 0), decoded(2, 14, 0)]);
    assert_eq!(m.missed_packets, 3);
}

#[test]
fn gap_across_wrap_adds_its_size() {
    let (_, m) = run(&[decoded(1, 65535, 0), decoded(2, 2, 0)]);
    assert_eq!(m.missed_packets, 2);
}

#[test]
fn first_frame_misses_nothing() {
    let (_, m) = run(&[decoded(1, 5000, 0)]);
    assert_eq!(m.missed_packets, 0);
}

#[test]
fn repeated_sequence_counts_as_wrapped_gap() {
    let (tracker, m) = run(&[decoded(1, 10, 0), decoded(2, 10, 0)]);
    assert_eq!(m.missed_packets, 65535);
    assert_eq!(tracker.last_seq, Some(10));
}

#[test]
fn every_frame_is_received() {
    let outcomes = [
        decoded(1, 1, 0),
        FrameOutcome::BadCrc,
        FrameOutcome::DecodeError,
        decoded(2, 2, 0),
        FrameOutcome::BadCrc,
    ];
    let (_, m) = run(&outcomes);
    assert_eq!(m.rcv_packets, 5);
    assert_eq!(m.bad_crc_errors, 2);
    assert_eq!(m.decode_errors, 1);
    assert_eq!(m.decode_errors + m.bad_crc_errors + 2, m.rcv_packets);
}

#[test]
fn bad_crc_keeps_readings_and_sequence() {
    let mut tracker = SequenceTracker::new();
    let mut m = MetricsSnapshot::new();
    tracker.receive(&mut m, &decoded(40, 7, 900), 55);
    let before = m;
    tracker.receive(&mut m, &FrameOutcome::BadCrc, 99);
    assert_eq!(m.pulses, before.pulses);
    assert_eq!(m.current_power, before.current_power);
    assert_eq!(m.last_packet_timestamp, before.last_packet_timestamp);
    assert_eq!(tracker.last_seq, Some(7));
    assert_eq!(m.bad_crc_errors, 1);
    assert_eq!(m.rcv_packets, 2);
}

#[test]
fn decode_error_keeps_readings_and_sequence() {
    let mut tracker = SequenceTracker::new();
    let mut m = MetricsSnapshot::new();
    tracker.receive(&mut m, &decoded(40, 7, 900), 55);
    tracker.receive(&mut m, &FrameOutcome::DecodeError, 99);
    assert_eq!(m.pulses, 40);
    assert_eq!(m.current_power, 900);
    assert_eq!(m.last_packet_timestamp, 55);
    assert_eq!(tracker.last_seq, Some(7));
    assert_eq!(m.decode_errors, 1);
    // The next frame's gap is measured from the last decoded one.
    tracker.receive(&mut m, &decoded(41, 9, 900), 100);
    assert_eq!(m.missed_packets, 1);
}

#[test]
fn update_for_decoded_frame() {
    let mut tracker = SequenceTracker::new();
    tracker.last_seq = Some(100);
    let u = tracker.on_frame(&decoded(5, 104, 1234), 77);
    assert_eq!(
        u,
        MetricsUpdate {
            pulses: Some(5),
            current_power: Some(1234),
            last_packet_timestamp: Some(77),
            rcv_packets: 1,
            decode_errors: 0,
            bad_crc_errors: 0,
            missed_packets: 3,
        }
    );
}

#[test]
fn counters_wrap_instead_of_failing() {
    let mut m = MetricsSnapshot::new();
    m.rcv_packets = u32::MAX;
    m.missed_packets = u32::MAX - 1;
    let u = MetricsUpdate {
        pulses: None,
        current_power: None,
        last_packet_timestamp: None,
        rcv_packets: 1,
        decode_errors: 0,
        bad_crc_errors: 0,
        missed_packets: 5,
    };
    m.apply(&u);
    assert_eq!(m.rcv_packets, 0);
    assert_eq!(m.missed_packets, 3);

    let store = SparsnasMetrics::new();
    store.rcv_packets.store(u32::MAX, std::sync::atomic::Ordering::SeqCst);
    store.apply(&u);
    assert_eq!(store.snapshot().rcv_packets, 0);
}
