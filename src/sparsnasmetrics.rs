use vstd::prelude::*;

use crate::openmetric::{OpenMetric, OpenMetricKind};
use std::sync::atomic::{AtomicU32, AtomicU64, Ordering};

verus! {

/// `x` reduced to the width of a `u32` counter.
pub open spec fn wrap32(x: int) -> u32 {
    (x % 0x1_0000_0000) as u32
}

/// The values of all counters at one moment.
#[derive(Debug, Clone, Copy, PartialEq, Eq, Structural)]
pub struct MetricsSnapshot {
    /// Latest cumulative pulse count reported by the transmitter.
    pub pulses: u32,
    /// Latest computed power, in watts.
    pub current_power: u32,
    /// Epoch seconds of the most recent successfully decoded packet.
    pub last_packet_timestamp: u64,
    /// Frames received, decoded or not.
    pub rcv_packets: u32,
    /// Frames that failed to decode for a reason other than integrity.
    pub decode_errors: u32,
    /// Frames that failed the integrity check.
    pub bad_crc_errors: u32,
    /// Packets estimated lost in transit, from sequence gaps.
    pub missed_packets: u32,
}

/// A change to the counters: the latest-value fields are set where given,
/// the running totals are increased by the given amounts.
#[derive(Debug, Clone, Copy, PartialEq, Eq, Structural)]
pub struct MetricsUpdate {
    pub pulses: Option<u32>,
    pub current_power: Option<u32>,
    pub last_packet_timestamp: Option<u64>,
    pub rcv_packets: u32,
    pub decode_errors: u32,
    pub bad_crc_errors: u32,
    pub missed_packets: u32,
}

pub open spec fn latest<T>(set: Option<T>, current: T) -> T {
    match set {
        Some(v) => v,
        None => current,
    }
}

impl MetricsUpdate {
    /// The counters after this update, with running totals wrapping at their width.
    pub open spec fn applied_to(self, s: MetricsSnapshot) -> MetricsSnapshot {
        MetricsSnapshot {
            pulses: latest(self.pulses, s.pulses),
            current_power: latest(self.current_power, s.current_power),
            last_packet_timestamp: latest(self.last_packet_timestamp, s.last_packet_timestamp),
            rcv_packets: wrap32(s.rcv_packets + self.rcv_packets),
            decode_errors: wrap32(s.decode_errors + self.decode_errors),
            bad_crc_errors: wrap32(s.bad_crc_errors + self.bad_crc_errors),
            missed_packets: wrap32(s.missed_packets + self.missed_packets),
        }
    }
}

fn add_wrapping(a: u32, b: u32) -> (r: u32)
    ensures
        r == wrap32(a + b),
{
    if b <= u32::MAX - a {
        a + b
    } else {
        let r: u32 = b - (u32::MAX - a) - 1;
        assert(r == wrap32(a + b)) by (nonlinear_arith)
            requires r == b - (0xffff_ffffu32 - a) - 1, b > 0xffff_ffffu32 - a, a <= 0xffff_ffffu32, b <= 0xffff_ffffu32;
        r
    }
}

impl MetricsSnapshot {
    /// All counters at zero.
    pub open spec fn zero() -> MetricsSnapshot {
        MetricsSnapshot {
            pulses: 0,
            current_power: 0,
            last_packet_timestamp: 0,
            rcv_packets: 0,
            decode_errors: 0,
            bad_crc_errors: 0,
            missed_packets: 0,
        }
    }

    pub fn new() -> (r: MetricsSnapshot)
        ensures
            r == MetricsSnapshot::zero(),
    {
        MetricsSnapshot {
            pulses: 0,
            current_power: 0,
            last_packet_timestamp: 0,
            rcv_packets: 0,
            decode_errors: 0,
            bad_crc_errors: 0,
            missed_packets: 0,
        }
    }

    /// Applies `update` to these counters.
    pub fn apply(&mut self, update: &MetricsUpdate)
        ensures
            *final(self) == update.applied_to(*old(self)),
    {
        if let Some(p) = update.pulses {
            self.pulses = p;
        }
        if let Some(p) = update.current_power {
            self.current_power = p;
        }
        if let Some(t) = update.last_packet_timestamp {
            self.last_packet_timestamp = t;
        }
        self.rcv_packets = add_wrapping(self.rcv_packets, update.rcv_packets);
        self.decode_errors = add_wrapping(self.decode_errors, update.decode_errors);
        self.bad_crc_errors = add_wrapping(self.bad_crc_errors, update.bad_crc_errors);
        self.missed_packets = add_wrapping(self.missed_packets, update.missed_packets);
    }
}

impl MetricsSnapshot {
    /// The metric families for these counters, in exposition order.
    pub open spec fn families(self) -> Seq<OpenMetric<'static>> {
        seq![
            OpenMetric {
                kind: OpenMetricKind::Counter,
                name: "sparsnas_pulses",
                help: Some("Total number of pulses (blinks) transmitter has seen since poweron."),
                unit: None,
                timestamp: Some(self.last_packet_timestamp),
                value: self.pulses as u64,
            },
            OpenMetric {
                kind: OpenMetricKind::Gauge,
                name: "sparsnas_power",
                help: Some("Instantaneous power usage."),
                unit: Some("Watt"),
                timestamp: Some(self.last_packet_timestamp),
                value: self.current_power as u64,
            },
            OpenMetric {
                kind: OpenMetricKind::Counter,
                name: "sparsnas_packets",
                help: Some("Received packets"),
                unit: None,
                timestamp: None,
                value: self.rcv_packets as u64,
            },
            OpenMetric {
                kind: OpenMetricKind::Counter,
                name: "sparsnas_packet_decode_errors",
                help: Some("Received packets that couldn't be decoded"),
                unit: None,
                timestamp: None,
                value: self.decode_errors as u64,
            },
            OpenMetric {
                kind: OpenMetricKind::Counter,
                name: "sparsnas_bad_crc_errors",
                help: Some("CRC errors"),
                unit: None,
                timestamp: None,
                value: self.bad_crc_errors as u64,
            },
            OpenMetric {
                kind: OpenMetricKind::Counter,
                name: "sparsnas_missed_packets",
                help: Some("Missed packets (based on packet sequence numbers)"),
                unit: None,
                timestamp: None,
                value: self.missed_packets as u64,
            },
        ]
    }

    /// The exposition text: each family in turn, then the end-of-stream marker.
    pub open spec fn text(self) -> Seq<char> {
        let f = self.families();
        f[0].text() + f[1].text() + f[2].text() + f[3].text() + f[4].text() + f[5].text()
            + "# EOF\n"@
    }

    /// Appends the exposition text of these counters to `out`.
    pub fn render(&self, out: &mut String)
        ensures
            final(out)@ == old(out)@ + self.text(),
    {
        let ghost start = out@;
        let ghost f = self.families();
        let ts = self.last_packet_timestamp;
        let m0 = OpenMetric::new(OpenMetricKind::Counter, "sparsnas_pulses")
            .help("Total number of pulses (blinks) transmitter has seen since poweron.")
            .timestamp(ts)
            .value(self.pulses as u64);
        assert(m0 == f[0]);
        m0.render(out);
        let m1 = OpenMetric::new(OpenMetricKind::Gauge, "sparsnas_power")
            .help("Instantaneous power usage.")
            .unit("Watt")
            .timestamp(ts)
            .value(self.current_power as u64);
        assert(m1 == f[1]);
        m1.render(out);
        let m2 = OpenMetric::new(OpenMetricKind::Counter, "sparsnas_packets")
            .help("Received packets")
            .value(self.rcv_packets as u64);
        assert(m2 == f[2]);
        m2.render(out);
        let m3 = OpenMetric::new(OpenMetricKind::Counter, "sparsnas_packet_decode_errors")
            .help("Received packets that couldn't be decoded")
            .value(self.decode_errors as u64);
        assert(m3 == f[3]);
        m3.render(out);
        let m4 = OpenMetric::new(OpenMetricKind::Counter, "sparsnas_bad_crc_errors")
            .help("CRC errors")
            .value(self.bad_crc_errors as u64);
        assert(m4 == f[4]);
        m4.render(out);
        let m5 = OpenMetric::new(OpenMetricKind::Counter, "sparsnas_missed_packets")
            .help("Missed packets (based on packet sequence numbers)")
            .value(self.missed_packets as u64);
        assert(m5 == f[5]);
        m5.render(out);
        out.append("# EOF\n");
        assert(out@ =~= start + self.text());
    }
}

/// The counters shared between the receive loop, which writes them, and any
/// number of readers. Each counter is updated atomically on its own; a reader
/// may see some fields of an update before others.
#[derive(Debug)]
pub struct SparsnasMetrics {
    pub pulses: AtomicU32,
    pub current_power: AtomicU32,
    pub last_packet_timestamp: AtomicU64,
    pub rcv_packets: AtomicU32,
    pub decode_errors: AtomicU32,
    pub bad_crc_errors: AtomicU32,
    pub missed_packets: AtomicU32,
}

impl SparsnasMetrics {
    /// A store with every counter at zero.
    pub fn new() -> SparsnasMetrics {
        SparsnasMetrics {
            pulses: AtomicU32::new(0),
            current_power: AtomicU32::new(0),
            last_packet_timestamp: AtomicU64::new(0),
            rcv_packets: AtomicU32::new(0),
            decode_errors: AtomicU32::new(0),
            bad_crc_errors: AtomicU32::new(0),
            missed_packets: AtomicU32::new(0),
        }
    }

    /// Applies `update`: sets the latest-value fields it gives and adds its
    /// amounts to the running totals (wrapping on overflow). Other threads
    /// may update the counters in between, so nothing is promised of the
    /// values afterwards.
    pub fn apply(&self, update: &MetricsUpdate) {
        if let Some(p) = update.pulses {
            self.pulses.store(p, Ordering::SeqCst);
        }
        if let Some(p) = update.current_power {
            self.current_power.store(p, Ordering::SeqCst);
        }
        if let Some(t) = update.last_packet_timestamp {
            self.last_packet_timestamp.store(t, Ordering::SeqCst);
        }
        if update.rcv_packets > 0 {
            self.rcv_packets.fetch_add(update.rcv_packets, Ordering::SeqCst);
        }
        if update.decode_errors > 0 {
            self.decode_errors.fetch_add(update.decode_errors, Ordering::SeqCst);
        }
        if update.bad_crc_errors > 0 {
            self.bad_crc_errors.fetch_add(update.bad_crc_errors, Ordering::SeqCst);
        }
        if update.missed_packets > 0 {
            self.missed_packets.fetch_add(update.missed_packets, Ordering::SeqCst);
        }
    }

    /// Reads every counter, one at a time.
    pub fn snapshot(&self) -> MetricsSnapshot {
        MetricsSnapshot {
            pulses: self.pulses.load(Ordering::SeqCst),
            current_power: self.current_power.load(Ordering::SeqCst),
            last_packet_timestamp: self.last_packet_timestamp.load(Ordering::SeqCst),
            rcv_packets: self.rcv_packets.load(Ordering::SeqCst),
            decode_errors: self.decode_errors.load(Ordering::SeqCst),
            bad_crc_errors: self.bad_crc_errors.load(Ordering::SeqCst),
            missed_packets: self.missed_packets.load(Ordering::SeqCst),
        }
    }

    /// Appends the exposition text of the current counters to `res`. What is
    /// written is the text of the values read, whatever they were.
    pub fn render_metrics(&self, res: &mut String)
        ensures
            exists|s: MetricsSnapshot| final(res)@ == old(res)@ + s.text(),
    {
        let s = self.snapshot();
        s.render(res);
    }
}

} // verus!
