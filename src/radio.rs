use vstd::prelude::*;

verus! {

/// Why bring-up or reception stopped.
#[derive(Debug, Clone, Copy, PartialEq, Eq, Structural)]
pub enum SparsnasRadioError {
    /// A register-protocol fault reported by the transceiver driver.
    RFM69,
    /// A GPIO line could not be opened, requested or read.
    Pin,
    /// A transport I/O fault.
    IO,
    /// A required configuration value is missing.
    Conf,
    /// The probe register never read back the sentinel.
    NoContactWithChip,
}

/// Bring-up parameters, collected before any hardware is touched.
#[derive(Debug, Clone, PartialEq, Eq)]
pub struct SparsnasRadioConfig {
    pub gpiochip: String,
    pub spidev: String,
    pub interrupt_pin: Option<u32>,
    pub reset_pin: Option<u32>,
    pub pulses_per_kwh: u32,
    pub serial: Option<u32>,
}

/// A complete configuration: everything bring-up and reception need.
#[derive(Debug, Clone, PartialEq, Eq)]
pub struct RadioSetup {
    pub gpiochip: String,
    pub spidev: String,
    pub interrupt_pin: u32,
    pub reset_pin: Option<u32>,
    pub pulses_per_kwh: u32,
    pub serial: u32,
}

impl SparsnasRadioConfig {
    pub fn new() -> (r: Self)
        ensures
            r.gpiochip@ == "/dev/gpiochip0"@,
            r.spidev@ == "/dev/spidev0.0"@,
            r.interrupt_pin is None,
            r.reset_pin is None,
            r.pulses_per_kwh == 1000,
            r.serial is None,
    {
        SparsnasRadioConfig {
            gpiochip: String::from_str("/dev/gpiochip0"),
            spidev: String::from_str("/dev/spidev0.0"),
            interrupt_pin: None,
            reset_pin: None,
            pulses_per_kwh: 1000,
            serial: None,
        }
    }

    pub fn gpiochip_device(self, path: &str) -> (r: Self)
        ensures
            r.gpiochip@ == path@,
            r.spidev == self.spidev,
            r.interrupt_pin == self.interrupt_pin,
            r.reset_pin == self.reset_pin,
            r.pulses_per_kwh == self.pulses_per_kwh,
            r.serial == self.serial,
    {
        SparsnasRadioConfig { gpiochip: String::from_str(path), ..self }
    }

    pub fn interrupt_pin(self, pin: u32) -> (r: Self)
        ensures
            r == (SparsnasRadioConfig { interrupt_pin: Some(pin), ..self }),
    {
        SparsnasRadioConfig { interrupt_pin: Some(pin), ..self }
    }

    pub fn reset_pin(self, pin: u32) -> (r: Self)
        ensures
            r == (SparsnasRadioConfig { reset_pin: Some(pin), ..self }),
    {
        SparsnasRadioConfig { reset_pin: Some(pin), ..self }
    }

    pub fn pulses_per_kwh(self, pulses: u32) -> (r: Self)
        ensures
            r == (SparsnasRadioConfig { pulses_per_kwh: pulses, ..self }),
    {
        SparsnasRadioConfig { pulses_per_kwh: pulses, ..self }
    }

    pub fn serial(self, serial: u32) -> (r: Self)
        ensures
            r == (SparsnasRadioConfig { serial: Some(serial), ..self }),
    {
        SparsnasRadioConfig { serial: Some(serial), ..self }
    }

    /// Checks that the configuration is complete: the transmitter serial and
    /// the interrupt line are required. Nothing touches hardware before this
    /// succeeds.
    pub fn build(&self) -> (r: Result<RadioSetup, SparsnasRadioError>)
        ensures
            (self.serial is Some && self.interrupt_pin is Some) <==> r is Ok,
            r is Err ==> r == Err::<RadioSetup, SparsnasRadioError>(SparsnasRadioError::Conf),
            r matches Ok(s) ==> {
                &&& s.gpiochip@ == self.gpiochip@
                &&& s.spidev@ == self.spidev@
                &&& Some(s.interrupt_pin) == self.interrupt_pin
                &&& s.reset_pin == self.reset_pin
                &&& s.pulses_per_kwh == self.pulses_per_kwh
                &&& Some(s.serial) == self.serial
            },
    {
        match (self.serial, self.interrupt_pin) {
            (Some(serial), Some(interrupt_pin)) => Ok(RadioSetup {
                gpiochip: self.gpiochip.clone(),
                spidev: self.spidev.clone(),
                interrupt_pin,
                reset_pin: self.reset_pin,
                pulses_per_kwh: self.pulses_per_kwh,
                serial,
            }),
            _ => Err(SparsnasRadioError::Conf),
        }
    }
}

} // verus!
