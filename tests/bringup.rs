use sparsnas::{
    radio_settings, ContactProbe, ProbeStep, RadioSetting, SparsnasRadioConfig, SparsnasRadioError,
    MAX_CORRECTIVE_WRITES, PROBE_SENTINEL,
};

#[test]
fn probe_contact_on_first_read() {
    let mut p = ContactProbe::new();
    assert_eq!(p.on_read(0xAA), ProbeStep::Contact);
    assert_eq!(p.corrective_writes, 0);
}

#[test]
fn probe_contact_after_three_writes() {
    let mut p = ContactProbe::new();
    for _ in 0..3 {
        assert_eq!(p.on_read(0x00), ProbeStep::WriteSentinel);
    }
    assert_eq!(p.on_read(PROBE_SENTINEL), ProbeStep::Contact);
    assert_eq!(p.corrective_writes, 3);
}

#[test]
fn probe_contact_on_eleventh_read() {
    let mut p = ContactProbe::new();
    for _ in 0..10 {
        assert_eq!(p.on_read(0x55), ProbeStep::WriteSentinel);
    }
    assert_eq!(p.on_read(0xAA), ProbeStep::Contact);
    assert_eq!(p.corrective_writes, 10);
}

#[test]
fn probe_gives_up_after_eleven_reads() {
    let mut p = ContactProbe::new();
    let mut steps = Vec::new();
    for _ in 0..11 {
        steps.push(p.on_read(0xFF));
    }
    assert!(steps[..10].iter().all(|s| *s == ProbeStep::WriteSentinel));
    assert_eq!(steps[10], ProbeStep::NoContact);
    assert_eq!(p.corrective_writes, MAX_CORRECTIVE_WRITES);
    assert_eq!(MAX_CORRECTIVE_WRITES, 10);
}

#[test]
fn config_defaults() {
    let c = SparsnasRadioConfig::new();
    assert_eq!(c.gpiochip, "/dev/gpiochip0");
    assert_eq!(c.spidev, "/dev/spidev0.0");
    assert_eq!(c.interrupt_pin, None);
    assert_eq!(c.reset_pin, None);
    assert_eq!(c.pulses_per_kwh, 1000);
    assert_eq!(c.serial, None);
}

#[test]
fn config_builders() {
    let c = SparsnasRadioConfig::new()
        .gpiochip_device("/dev/gpiochip1")
        .interrupt_pin(24)
        .reset_pin(5)
        .pulses_per_kwh(800)
        .serial(123456);
    let s = c.build().unwrap();
    assert_eq!(s.gpiochip, "/dev/gpiochip1");
    assert_eq!(s.spidev, "/dev/spidev0.0");
    assert_eq!(s.interrupt_pin, 24);
    assert_eq!(s.reset_pin, Some(5));
    assert_eq!(s.pulses_per_kwh, 800);
    assert_eq!(s.serial, 123456);
}

#[test]
fn config_without_serial_is_refused() {
    let c = SparsnasRadioConfig::new().interrupt_pin(24);
    assert_eq!(c.build(), Err(SparsnasRadioError::Conf));
}

#[test]
fn config_without_interrupt_pin_is_refused() {
    let c = SparsnasRadioConfig::new().serial(1);
    assert_eq!(c.build(), Err(SparsnasRadioError::Conf));
}

#[test]
fn config_without_reset_pin_is_complete() {
    let s = SparsnasRadioConfig::new().serial(1).interrupt_pin(2).build().unwrap();
    assert_eq!(s.reset_pin, None);
}

#[test]
fn radio_programming_table() {
    let t = radio_settings();
    assert_eq!(t.len(), 10);
    assert_eq!(t[0], RadioSetting::Modulation);
    assert_eq!(t[1], RadioSetting::BitRate(40_000));
    assert_eq!(t[2], RadioSetting::Frequency(867_987_500));
    assert_eq!(t[3], RadioSetting::FrequencyDeviation(10_000));
    assert_eq!(t[4], RadioSetting::ReceiverBandwidth);
    assert_eq!(t[5], RadioSetting::SyncWord(0xd2, 0x01));
    assert_eq!(t[6], RadioSetting::RssiThreshold(0xbe));
    assert_eq!(t[7], RadioSetting::InterruptMapping);
    assert_eq!(t[8], RadioSetting::Preamble(3));
    assert_eq!(t[9], RadioSetting::PacketFormat { length: 20, crc: false, auto_rx_restart: true });
}
