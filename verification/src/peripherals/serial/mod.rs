use vstd::prelude::*;

pub mod modem;

verus! {

/// The parity a serial line uses.
#[derive(Debug, Clone, Copy, PartialEq, Eq, Structural)]
pub enum SerialParity {
    NoParity,
    Odd,
    Even,
    Mark,
    Space,
}

/// The settings a serial line is opened with.
#[derive(Debug, Clone, Copy, PartialEq, Eq, Structural)]
pub struct SerialDeviceOptions {
    pub parity: SerialParity,
    pub baud: usize,
}

/// A serial device that sends back what it is sent.
pub struct EchoSerialPort {}

impl EchoSerialPort {
    /// The echo device.
    pub fn new() -> (r: EchoSerialPort) {
        EchoSerialPort {}
    }
}

/// A serial device that acts as a Hayes-style modem dialling TCP hosts.
pub struct InternetModem {}

impl InternetModem {
    /// The modem.
    pub fn new() -> (r: InternetModem) {
        InternetModem {}
    }
}

/// A serial port of the host, by its path; `force_zero_baud` opens it at baud 0 whatever
/// the card asks.
pub struct SerialDevicePort {
    pub path: String,
    pub force_zero_baud: bool,
}

impl SerialDevicePort {
    /// The port at `path`.
    pub fn new(path: &str, force_zero_baud: bool) -> (r: SerialDevicePort)
        ensures
            r.path@ == path@,
            r.force_zero_baud == force_zero_baud,
    {
        SerialDevicePort { path: path.to_owned(), force_zero_baud }
    }
}

} // verus!
