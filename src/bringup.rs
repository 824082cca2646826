use vstd::prelude::*;

verus! {

/// The value the liveness probe expects to read back from the chip.
pub const PROBE_SENTINEL: u8 = 0xAA;

/// The most corrective writes of the sentinel before giving up.
pub const MAX_CORRECTIVE_WRITES: u32 = 10;

/// Milliseconds to hold the reset line active.
pub const RESET_ACTIVE_MS: u32 = 300;

/// Milliseconds to wait after releasing the reset line.
pub const RESET_SETTLE_MS: u32 = 50;

/// Milliseconds between a corrective write and the next probe.
pub const PROBE_RETRY_MS: u32 = 100;

/// What to do after reading the probe register.
#[derive(Debug, Clone, Copy, PartialEq, Eq, Structural)]
pub enum ProbeStep {
    /// The chip answered: go on with bring-up.
    Contact,
    /// Write the sentinel, wait, and read the register again.
    WriteSentinel,
    /// Give up: the chip is absent or wired wrongly.
    NoContact,
}

/// The decision after reading `value` when `writes` corrective writes have
/// been issued, and the number of writes issued afterwards.
pub open spec fn probe_step(writes: nat, value: u8) -> (ProbeStep, nat) {
    if value == PROBE_SENTINEL {
        (ProbeStep::Contact, writes)
    } else if writes < MAX_CORRECTIVE_WRITES {
        (ProbeStep::WriteSentinel, writes + 1)
    } else {
        (ProbeStep::NoContact, writes)
    }
}

/// The liveness probe of bring-up: counts the corrective writes issued so far.
#[derive(Debug, Clone, Copy, PartialEq, Eq, Structural)]
pub struct ContactProbe {
    pub corrective_writes: u32,
}

impl ContactProbe {
    pub open spec fn wf(self) -> bool {
        self.corrective_writes <= MAX_CORRECTIVE_WRITES
    }

    pub fn new() -> (r: ContactProbe)
        ensures
            r.corrective_writes == 0,
            r.wf(),
    {
        ContactProbe { corrective_writes: 0 }
    }

    /// Decides on the value just read from the probe register.
    pub fn on_read(&mut self, value: u8) -> (r: ProbeStep)
        requires
            old(self).wf(),
        ensures
            final(self).wf(),
            (r, final(self).corrective_writes as nat) == probe_step(
                old(self).corrective_writes as nat,
                value,
            ),
    {
        if value == PROBE_SENTINEL {
            ProbeStep::Contact
        } else if self.corrective_writes < MAX_CORRECTIVE_WRITES {
            self.corrective_writes = self.corrective_writes + 1;
            ProbeStep::WriteSentinel
        } else {
            ProbeStep::NoContact
        }
    }
}

/// Runs the probe over the register values `reads`, read in turn, starting
/// with `writes` corrective writes issued. Gives the final decision (none if
/// the reads ran out while retrying), the writes issued, and the reads used.
pub open spec fn probe_run(writes: nat, reads: Seq<u8>) -> (Option<ProbeStep>, nat, nat)
    decreases reads.len(),
{
    if reads.len() == 0 {
        (None, writes, 0)
    } else {
        let (step, w) = probe_step(writes, reads[0]);
        if step == ProbeStep::WriteSentinel {
            let (o, w2, n) = probe_run(w, reads.drop_first());
            (o, w2, n + 1)
        } else {
            (Some(step), w, 1)
        }
    }
}

/// However the chip answers, the probe never issues more than the maximum
/// of corrective writes, and it gives up only after issuing all of them.
pub proof fn lemma_probe_writes_bounded(writes: nat, reads: Seq<u8>)
    requires
        writes <= MAX_CORRECTIVE_WRITES,
    ensures
        probe_run(writes, reads).1 <= MAX_CORRECTIVE_WRITES,
        probe_run(writes, reads).0 == Some(ProbeStep::NoContact) ==> probe_run(writes, reads).1
            == MAX_CORRECTIVE_WRITES,
    decreases reads.len(),
{
    if reads.len() > 0 {
        lemma_probe_writes_bounded(probe_step(writes, reads[0]).1, reads.drop_first());
    }
}

/// If the first sentinel is read on probe number `n + 1`, after `n` other
/// values and with `n` no more than the maximum, the probe reports contact
/// after exactly `n` corrective writes and reads nothing further.
pub proof fn lemma_probe_contact_on_read(reads: Seq<u8>, n: nat)
    requires
        n <= MAX_CORRECTIVE_WRITES,
        n < reads.len(),
        reads[n as int] == PROBE_SENTINEL,
        forall|i: int| 0 <= i < n ==> reads[i] != PROBE_SENTINEL,
    ensures
        probe_run(0, reads) == (Some(ProbeStep::Contact), n, n + 1),
{
    lemma_probe_contact_from(0, reads, n);
}

proof fn lemma_probe_contact_from(writes: nat, reads: Seq<u8>, n: nat)
    requires
        writes + n <= MAX_CORRECTIVE_WRITES,
        n < reads.len(),
        reads[n as int] == PROBE_SENTINEL,
        forall|i: int| 0 <= i < n ==> reads[i] != PROBE_SENTINEL,
    ensures
        probe_run(writes, reads) == (Some(ProbeStep::Contact), writes + n, n + 1),
    decreases n,
{
    if n > 0 {
        let rest = reads.drop_first();
        assert(reads[0] != PROBE_SENTINEL);
        assert forall|i: int| 0 <= i < n - 1 implies rest[i] != PROBE_SENTINEL by {
            assert(rest[i] == reads[i + 1]);
        }
        lemma_probe_contact_from(writes + 1, rest, (n - 1) as nat);
    }
}

/// If none of the first eleven reads gives the sentinel, the probe gives up
/// on the eleventh, after the maximum of corrective writes.
pub proof fn lemma_probe_gives_up(reads: Seq<u8>)
    requires
        reads.len() >= MAX_CORRECTIVE_WRITES + 1,
        forall|i: int| 0 <= i <= MAX_CORRECTIVE_WRITES ==> reads[i] != PROBE_SENTINEL,
    ensures
        probe_run(0, reads) == (Some(ProbeStep::NoContact), MAX_CORRECTIVE_WRITES as nat, (
        MAX_CORRECTIVE_WRITES + 1) as nat),
{
    lemma_probe_gives_up_from(0, reads);
}

proof fn lemma_probe_gives_up_from(writes: nat, reads: Seq<u8>)
    requires
        writes <= MAX_CORRECTIVE_WRITES,
        reads.len() >= MAX_CORRECTIVE_WRITES + 1 - writes,
        forall|i: int| 0 <= i <= MAX_CORRECTIVE_WRITES - writes ==> reads[i] != PROBE_SENTINEL,
    ensures
        probe_run(writes, reads) == (Some(ProbeStep::NoContact), MAX_CORRECTIVE_WRITES as nat, (
        MAX_CORRECTIVE_WRITES + 1 - writes) as nat),
    decreases MAX_CORRECTIVE_WRITES - writes,
{
    assert(reads[0] != PROBE_SENTINEL);
    if writes < MAX_CORRECTIVE_WRITES {
        let rest = reads.drop_first();
        assert forall|i: int| 0 <= i <= MAX_CORRECTIVE_WRITES - (writes + 1) implies rest[i]
            != PROBE_SENTINEL by {
            assert(rest[i] == reads[i + 1]);
        }
        lemma_probe_gives_up_from(writes + 1, rest);
    }
}

/// One step of the fixed radio programming done after contact.
#[derive(Debug, Clone, Copy, PartialEq, Eq, Structural)]
pub enum RadioSetting {
    /// Packet mode, FSK modulation, Gaussian shaping with BT = 1.0.
    Modulation,
    /// Bit rate, in bits per second.
    BitRate(u32),
    /// Carrier frequency, in hertz.
    Frequency(u32),
    /// Frequency deviation, in hertz.
    FrequencyDeviation(u32),
    /// Receiver bandwidth of 62.5 kHz with a DC-cancellation cutoff of 4 %.
    ReceiverBandwidth,
    /// The two-byte synchronization word.
    SyncWord(u8, u8),
    /// Signal-strength threshold register value.
    RssiThreshold(u8),
    /// DIO0 signals a received packet while in receive mode.
    InterruptMapping,
    /// Preamble length, in bytes.
    Preamble(u16),
    /// Fixed-length framing with no address filtering and no DC-free coding,
    /// an inter-packet delay of two bits, and reception restarting by itself
    /// after each frame.
    PacketFormat { length: u8, crc: bool, auto_rx_restart: bool },
}

/// The length of every frame the transmitter sends.
pub const FRAME_LEN: u8 = 20;

/// The radio programming, in the order it is applied.
pub open spec fn radio_settings_spec() -> Seq<RadioSetting> {
    seq![
        RadioSetting::Modulation,
        RadioSetting::BitRate(40_000),
        RadioSetting::Frequency(867_987_500),
        RadioSetting::FrequencyDeviation(10_000),
        RadioSetting::ReceiverBandwidth,
        RadioSetting::SyncWord(0xd2, 0x01),
        RadioSetting::RssiThreshold(0xbe),
        RadioSetting::InterruptMapping,
        RadioSetting::Preamble(3),
        RadioSetting::PacketFormat { length: FRAME_LEN, crc: false, auto_rx_restart: true },
    ]
}

/// The radio programming as a table, for a driver to apply in order.
pub fn radio_settings() -> (r: Vec<RadioSetting>)
    ensures
        r@ == radio_settings_spec(),
{
    let r = vec![
        RadioSetting::Modulation,
        RadioSetting::BitRate(40_000),
        RadioSetting::Frequency(867_987_500),
        RadioSetting::FrequencyDeviation(10_000),
        RadioSetting::ReceiverBandwidth,
        RadioSetting::SyncWord(0xd2, 0x01),
        RadioSetting::RssiThreshold(0xbe),
        RadioSetting::InterruptMapping,
        RadioSetting::Preamble(3),
        RadioSetting::PacketFormat { length: FRAME_LEN, crc: false, auto_rx_restart: true },
    ];
    assert(r@ =~= radio_settings_spec());
    r
}

} // verus!
