use vstd::prelude::*;

use crate::sparsnasmetrics::{wrap32, MetricsSnapshot, MetricsUpdate};

verus! {

/// What the decoder read from one frame.
#[derive(Debug, Clone, Copy, PartialEq, Eq, Structural)]
pub struct DecodedReading {
    /// Cumulative pulse count reported by the transmitter.
    pub pulse_count: u32,
    /// Packet sequence number; wraps at 16 bits.
    pub packet_seq: u16,
    /// Instantaneous power, in watts, for the configured calibration.
    pub power: u32,
}

/// The decoder's verdict on one received frame.
#[derive(Debug, Clone, Copy, PartialEq, Eq, Structural)]
pub enum FrameOutcome {
    Decoded(DecodedReading),
    /// The frame failed the integrity check.
    BadCrc,
    /// The frame could not be decoded for another reason.
    DecodeError,
}

/// Packets missing between `last` and `seq`: `seq - (last + 1)` with 16-bit wraparound.
pub open spec fn sequence_gap(last: u16, seq: u16) -> nat {
    ((seq - last - 1) % 0x1_0000) as nat
}

pub open spec fn missed_before(last_seq: Option<u16>, seq: u16) -> nat {
    match last_seq {
        Some(last) => sequence_gap(last, seq),
        None => 0,
    }
}

/// The change that one frame makes to the counters, given the last sequence
/// number accepted before it and the wall-clock time of reception.
pub open spec fn frame_update(last_seq: Option<u16>, outcome: FrameOutcome, now: u64) -> MetricsUpdate {
    match outcome {
        FrameOutcome::Decoded(r) => MetricsUpdate {
            pulses: Some(r.pulse_count),
            current_power: Some(r.power),
            last_packet_timestamp: Some(now),
            rcv_packets: 1,
            decode_errors: 0,
            bad_crc_errors: 0,
            missed_packets: missed_before(last_seq, r.packet_seq) as u32,
        },
        FrameOutcome::BadCrc => MetricsUpdate {
            pulses: None,
            current_power: None,
            last_packet_timestamp: None,
            rcv_packets: 1,
            decode_errors: 0,
            bad_crc_errors: 1,
            missed_packets: 0,
        },
        FrameOutcome::DecodeError => MetricsUpdate {
            pulses: None,
            current_power: None,
            last_packet_timestamp: None,
            rcv_packets: 1,
            decode_errors: 1,
            bad_crc_errors: 0,
            missed_packets: 0,
        },
    }
}

/// The last accepted sequence number after one frame.
pub open spec fn next_last_seq(last_seq: Option<u16>, outcome: FrameOutcome) -> Option<u16> {
    match outcome {
        FrameOutcome::Decoded(r) => Some(r.packet_seq),
        _ => last_seq,
    }
}

/// The sequence number of the last successfully decoded frame, kept by the
/// receive loop to detect lost packets.
#[derive(Debug, Clone, Copy, PartialEq, Eq, Structural)]
pub struct SequenceTracker {
    pub last_seq: Option<u16>,
}

fn gap(last: u16, seq: u16) -> (r: u16)
    ensures
        r as nat == sequence_gap(last, seq),
{
    let next = last.wrapping_add(1);
    let r = seq.wrapping_sub(next);
    assert(next as int == (last + 1) % 0x1_0000);
    assert(r as int == (seq - next) % 0x1_0000);
    assert(r as int == (seq - last - 1) % 0x1_0000) by (nonlinear_arith)
        requires
            next as int == (last + 1) % 0x1_0000,
            r as int == (seq - next) % 0x1_0000,
            0 <= last < 0x1_0000,
            0 <= seq < 0x1_0000;
    r
}

impl SequenceTracker {
    pub fn new() -> (r: SequenceTracker)
        ensures
            r.last_seq is None,
    {
        SequenceTracker { last_seq: None }
    }

    /// Accounts for one received frame: returns the change it makes to the
    /// counters and records its sequence number if it was decoded.
    pub fn on_frame(&mut self, outcome: &FrameOutcome, now: u64) -> (r: MetricsUpdate)
        ensures
            r == frame_update(old(self).last_seq, *outcome, now),
            final(self).last_seq == next_last_seq(old(self).last_seq, *outcome),
    {
        match outcome {
            FrameOutcome::Decoded(reading) => {
                let missed: u32 = match self.last_seq {
                    Some(last) => gap(last, reading.packet_seq) as u32,
                    None => 0,
                };
                self.last_seq = Some(reading.packet_seq);
                MetricsUpdate {
                    pulses: Some(reading.pulse_count),
                    current_power: Some(reading.power),
                    last_packet_timestamp: Some(now),
                    rcv_packets: 1,
                    decode_errors: 0,
                    bad_crc_errors: 0,
                    missed_packets: missed,
                }
            },
            FrameOutcome::BadCrc => MetricsUpdate {
                pulses: None,
                current_power: None,
                last_packet_timestamp: None,
                rcv_packets: 1,
                decode_errors: 0,
                bad_crc_errors: 1,
                missed_packets: 0,
            },
            FrameOutcome::DecodeError => MetricsUpdate {
                pulses: None,
                current_power: None,
                last_packet_timestamp: None,
                rcv_packets: 1,
                decode_errors: 1,
                bad_crc_errors: 0,
                missed_packets: 0,
            },
        }
    }

    /// Accounts for one received frame directly on a set of counters.
    pub fn receive(&mut self, metrics: &mut MetricsSnapshot, outcome: &FrameOutcome, now: u64)
        ensures
            final(self).last_seq == next_last_seq(old(self).last_seq, *outcome),
            *final(metrics) == frame_update(old(self).last_seq, *outcome, now).applied_to(*old(metrics)),
    {
        let update = self.on_frame(outcome, now);
        metrics.apply(&update);
    }
}

/// The last accepted sequence number and the counters after receiving
/// `outcomes` in order, each at time `now`.
pub open spec fn receive_all(
    last_seq: Option<u16>,
    m: MetricsSnapshot,
    outcomes: Seq<FrameOutcome>,
    now: u64,
) -> (Option<u16>, MetricsSnapshot)
    decreases outcomes.len(),
{
    if outcomes.len() == 0 {
        (last_seq, m)
    } else {
        receive_all(
            next_last_seq(last_seq, outcomes[0]),
            frame_update(last_seq, outcomes[0], now).applied_to(m),
            outcomes.drop_first(),
            now,
        )
    }
}

pub open spec fn count_decoded(outcomes: Seq<FrameOutcome>) -> nat
    decreases outcomes.len(),
{
    if outcomes.len() == 0 {
        0
    } else {
        (if outcomes[0] is Decoded { 1nat } else { 0nat }) + count_decoded(outcomes.drop_first())
    }
}

pub open spec fn count_bad_crc(outcomes: Seq<FrameOutcome>) -> nat
    decreases outcomes.len(),
{
    if outcomes.len() == 0 {
        0
    } else {
        (if outcomes[0] is BadCrc { 1nat } else { 0nat }) + count_bad_crc(outcomes.drop_first())
    }
}

pub open spec fn count_decode_errors(outcomes: Seq<FrameOutcome>) -> nat
    decreases outcomes.len(),
{
    if outcomes.len() == 0 {
        0
    } else {
        (if outcomes[0] is DecodeError { 1nat } else { 0nat }) + count_decode_errors(outcomes.drop_first())
    }
}

/// Each reading's sequence number follows the previous one (the first
/// follows `last`) without a gap, modulo 2^16.
pub open spec fn contiguous(last: u16, readings: Seq<DecodedReading>) -> bool {
    forall|i: int|
        0 <= i < readings.len() ==> #[trigger] readings[i].packet_seq as int == (
            (if i == 0 { last } else { readings[i - 1].packet_seq }) + 1) % 0x1_0000
}

pub open spec fn as_decoded(readings: Seq<DecodedReading>) -> Seq<FrameOutcome> {
    readings.map_values(|r: DecodedReading| FrameOutcome::Decoded(r))
}

/// A run of frames whose sequence numbers follow one another without a gap
/// leaves the missed-packet count as it was.
pub proof fn lemma_contiguous_frames_miss_nothing(
    last: u16,
    m: MetricsSnapshot,
    readings: Seq<DecodedReading>,
    now: u64,
)
    requires
        contiguous(last, readings),
    ensures
        receive_all(Some(last), m, as_decoded(readings), now).1.missed_packets == m.missed_packets,
    decreases readings.len(),
{
    if readings.len() > 0 {
        let first = readings[0];
        assert(as_decoded(readings)[0] == FrameOutcome::Decoded(first));
        assert(first.packet_seq as int == (last + 1) % 0x1_0000);
        assert(sequence_gap(last, first.packet_seq) == 0);
        let m2 = frame_update(Some(last), FrameOutcome::Decoded(first), now).applied_to(m);
        assert(m2.missed_packets == m.missed_packets);
        let rest = readings.drop_first();
        assert(as_decoded(readings).drop_first() =~= as_decoded(rest));
        assert forall|i: int| 0 <= i < rest.len() implies #[trigger] rest[i].packet_seq as int == (
            (if i == 0 { first.packet_seq } else { rest[i - 1].packet_seq }) + 1) % 0x1_0000 by {
            assert(rest[i] == readings[i + 1]);
        }
        lemma_contiguous_frames_miss_nothing(first.packet_seq, m2, rest, now);
    }
}

/// A decoded frame that comes `k` sequence numbers after the next expected
/// one (0 < k < 2^15) adds exactly `k` to the missed-packet count.
pub proof fn lemma_gap_adds_its_size(
    last: u16,
    m: MetricsSnapshot,
    reading: DecodedReading,
    k: nat,
    now: u64,
)
    requires
        0 < k < 0x8000,
        reading.packet_seq as int == (last + 1 + k) % 0x1_0000,
    ensures
        frame_update(Some(last), FrameOutcome::Decoded(reading), now).applied_to(m).missed_packets
            == wrap32(m.missed_packets + k),
{
    assert(sequence_gap(last, reading.packet_seq) == k);
}

/// Every frame counts as received once; decode errors, integrity failures
/// and successful decodes are counted apart and together make up all frames.
pub proof fn lemma_every_frame_counted(
    last_seq: Option<u16>,
    m: MetricsSnapshot,
    outcomes: Seq<FrameOutcome>,
    now: u64,
)
    requires
        m.rcv_packets + outcomes.len() <= u32::MAX,
        m.decode_errors + outcomes.len() <= u32::MAX,
        m.bad_crc_errors + outcomes.len() <= u32::MAX,
    ensures
        receive_all(last_seq, m, outcomes, now).1.rcv_packets == m.rcv_packets + outcomes.len(),
        receive_all(last_seq, m, outcomes, now).1.decode_errors == m.decode_errors
            + count_decode_errors(outcomes),
        receive_all(last_seq, m, outcomes, now).1.bad_crc_errors == m.bad_crc_errors
            + count_bad_crc(outcomes),
        count_decode_errors(outcomes) + count_bad_crc(outcomes) + count_decoded(outcomes)
            == outcomes.len(),
    decreases outcomes.len(),
{
    if outcomes.len() > 0 {
        let o = outcomes[0];
        let m2 = frame_update(last_seq, o, now).applied_to(m);
        lemma_every_frame_counted(next_last_seq(last_seq, o), m2, outcomes.drop_first(), now);
    }
}

/// Starting from zeroed counters, the received-frame count equals decode
/// errors plus integrity failures plus successful decodes.
pub proof fn lemma_received_is_sum_of_outcomes(
    last_seq: Option<u16>,
    outcomes: Seq<FrameOutcome>,
    now: u64,
)
    requires
        outcomes.len() <= u32::MAX,
    ensures
        ({
            let m = receive_all(last_seq, MetricsSnapshot::zero(), outcomes, now).1;
            &&& m.rcv_packets == outcomes.len()
            &&& m.decode_errors + m.bad_crc_errors + count_decoded(outcomes) == m.rcv_packets
        }),
{
    lemma_every_frame_counted(last_seq, MetricsSnapshot::zero(), outcomes, now);
}

/// A frame that fails the integrity check leaves the pulse count, the power,
/// the packet timestamp and the sequence tracker unchanged.
pub proof fn lemma_bad_crc_keeps_readings(last_seq: Option<u16>, m: MetricsSnapshot, now: u64)
    ensures
        ({
            let m2 = frame_update(last_seq, FrameOutcome::BadCrc, now).applied_to(m);
            &&& m2.pulses == m.pulses
            &&& m2.current_power == m.current_power
            &&& m2.last_packet_timestamp == m.last_packet_timestamp
            &&& next_last_seq(last_seq, FrameOutcome::BadCrc) == last_seq
        }),
{
}

} // verus!
