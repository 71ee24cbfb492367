use vstd::prelude::*;

use crate::cpu::mos6502::bus::memory::MemoryBank;
use crate::cpu::mos6502::{irq_released, CpuView, Mos6502};
use crate::cpu::InterruptSource;
use crate::errors::Error;
use crate::peripherals::serial::{SerialDeviceOptions, SerialParity};
use crate::utils::bits::{bit, get_bit, set_bit, with_bit};

verus! {

/// Register: DIP switch block 1.
pub const REGISTER_DIPSW1: usize = 1;
/// Register: DIP switch block 2.
pub const REGISTER_DIPSW2: usize = 2;
/// Register: the data register.
pub const REGISTER_DREG: usize = 8;
/// Register: the status register.
pub const REGISTER_STATUS: usize = 9;
/// Register: the command register.
pub const REGISTER_COMMAND: usize = 0x0a;
/// Register: the control register.
pub const REGISTER_CONTROL: usize = 0x0b;

/// The interrupt source number of the serial card.
pub const IRQ_SOURCE: InterruptSource = 0xff;

/// The status register after power-on: transmitter empty, no carrier, no data set ready.
pub const STATUS_DEFAULT: u8 = 0x70;
/// The control register after power-on: the baud rate generator in use, 8 data bits.
pub const CONTROL_DEFAULT: u8 = 0x10;

/// The baud rate that the low four bits of the control register select.
pub open spec fn baud_rate_spec(control: u8) -> usize {
    let b = control % 16;
    if b == 1 { 50 } else if b == 2 { 75 } else if b == 3 { 110 } else if b == 4 { 135 } else if b == 5 { 150 }
    else if b == 6 { 300 } else if b == 7 { 600 } else if b == 8 { 1200 } else if b == 9 { 1800 }
    else if b == 10 { 2400 } else if b == 11 { 3600 } else if b == 12 { 4800 } else if b == 13 { 7200 }
    else if b == 14 { 9600 } else if b == 15 { 19200 } else { 9600 }
}

/// The parity that the top three bits of the command register select.
pub open spec fn parity_spec(command: u8) -> SerialParity {
    let p = command / 32;
    if p == 1 {
        SerialParity::Odd
    } else if p == 3 {
        SerialParity::Even
    } else if p == 5 {
        SerialParity::Mark
    } else if p == 7 {
        SerialParity::Space
    } else {
        SerialParity::NoParity
    }
}

/// What the card asks of the host's serial line after a register write.
#[derive(Debug, Clone, Copy, PartialEq, Eq, Structural)]
pub enum SerialAction {
    /// Send a byte.
    Send(u8),
    /// Open the line with these settings.
    Open(SerialDeviceOptions),
    /// Close the line.
    Close,
}

/// The state of the card: the bytes received and not read, the DIP switches, the status,
/// command and control registers, and whether the host line is open.
pub struct SuperSerialView {
    pub rx_buf: Seq<u8>,
    pub dipswitch_1: u8,
    pub dipswitch_2: u8,
    pub status: u8,
    pub command: u8,
    pub control: u8,
    pub port_open: bool,
}

/// The card after power-on and reset.
pub open spec fn serial_default(s: SuperSerialView) -> bool {
    &&& s.rx_buf.len() == 0
    &&& s.dipswitch_1 == 0
    &&& s.dipswitch_2 == 0
    &&& s.status == STATUS_DEFAULT
    &&& s.command == 0
    &&& s.control == CONTROL_DEFAULT
    &&& !s.port_open
}

/// The status register after the line closes: no interrupt, no carrier, no data set ready.
pub open spec fn closed_status(status: u8) -> u8 {
    with_bit(with_bit(with_bit(status, 7, false), 5, true), 6, true)
}

/// What a read of register `address` does: the card state after it, the value, and
/// whether the card's interrupt is released. The status first tells whether bytes wait; the
/// data register gives the oldest waiting byte (0 if none) and, once none wait, clears and
/// releases the interrupt.
pub open spec fn serial_read_spec(old: SuperSerialView, address: usize) -> (SuperSerialView, u8, bool) {
    let s = SuperSerialView { status: with_bit(old.status, 3, old.rx_buf.len() > 0), ..old };
    if address == REGISTER_DREG {
        let rest = if s.rx_buf.len() > 0 { s.rx_buf.drop_first() } else { s.rx_buf };
        let v = if s.rx_buf.len() > 0 { s.rx_buf[0] } else { 0u8 };
        if rest.len() == 0 && bit(s.status, 7) {
            (SuperSerialView { rx_buf: rest, status: with_bit(s.status, 7, false), ..s }, v, true)
        } else {
            (SuperSerialView { rx_buf: rest, ..s }, v, false)
        }
    } else {
        (
            s,
            if address == REGISTER_DIPSW1 {
                s.dipswitch_1
            } else if address == REGISTER_DIPSW2 {
                s.dipswitch_2
            } else if address == REGISTER_STATUS {
                s.status
            } else if address == REGISTER_CONTROL {
                s.control
            } else if address == REGISTER_COMMAND {
                s.command
            } else {
                0u8
            },
            false,
        )
    }
}

/// The card after a byte comes in from the host line.
pub open spec fn serial_receive_spec(s: SuperSerialView, byte: u8) -> SuperSerialView {
    SuperSerialView { rx_buf: s.rx_buf.push(byte), status: with_bit(s.status, 7, true), ..s }
}

/// Bytes come out of the data register in the order they came in: after a byte arrives,
/// a read gives the oldest waiting byte, or the new one where none waited.
pub proof fn lemma_serial_fifo(s: SuperSerialView, byte: u8)
    ensures
        serial_read_spec(serial_receive_spec(s, byte), REGISTER_DREG).1 == (if s.rx_buf.len() > 0 {
            s.rx_buf[0]
        } else {
            byte
        }),
        serial_read_spec(serial_receive_spec(s, byte), REGISTER_DREG).0.rx_buf == (if s.rx_buf.len() > 0 {
            s.rx_buf.drop_first().push(byte)
        } else {
            Seq::<u8>::empty()
        }),
{
    let r = serial_receive_spec(s, byte);
    if s.rx_buf.len() > 0 {
        assert(r.rx_buf.drop_first() =~= s.rx_buf.drop_first().push(byte));
    } else {
        assert(r.rx_buf.drop_first() =~= Seq::<u8>::empty());
    }
}

/// What a write of `value` to register `address` does: the card state after it and what it
/// asks of the host line. A byte written to the data register with DTR on goes out (bit 7
/// cleared) where the line is open, comes back where echo is on, and leaves the
/// transmitter empty. Turning DTR on opens the line with the selected baud rate and
/// parity; turning it off closes it and clears the interrupt.
pub open spec fn serial_write_spec(s: SuperSerialView, address: usize, value: u8) -> (SuperSerialView, Option<SerialAction>, bool) {
    let dtr_before = bit(s.command, 0);
    let (s1, send) = if address == REGISTER_DIPSW1 {
        (SuperSerialView { dipswitch_1: value, ..s }, None)
    } else if address == REGISTER_DIPSW2 {
        (SuperSerialView { dipswitch_2: value, ..s }, None)
    } else if address == REGISTER_DREG {
        if dtr_before {
            (
                SuperSerialView {
                    rx_buf: if bit(s.command, 4) { s.rx_buf.push(value) } else { s.rx_buf },
                    status: with_bit(s.status, 4, true),
                    ..s
                },
                if s.port_open { Some(SerialAction::Send((value % 128) as u8)) } else { None },
            )
        } else {
            (s, None)
        }
    } else if address == REGISTER_CONTROL {
        (SuperSerialView { control: value, ..s }, None)
    } else if address == REGISTER_COMMAND {
        (SuperSerialView { command: value, ..s }, None)
    } else {
        (s, None)
    };
    let dtr = bit(s1.command, 0);
    if dtr && !dtr_before {
        (
            SuperSerialView { port_open: true, ..s1 },
            Some(SerialAction::Open(SerialDeviceOptions { parity: parity_spec(s1.command), baud: baud_rate_spec(s1.control) })),
            false,
        )
    } else if !dtr && dtr_before {
        (
            SuperSerialView { port_open: false, status: closed_status(s1.status), ..s1 },
            if s1.port_open { Some(SerialAction::Close) } else { None },
            true,
        )
    } else {
        (s1, send, false)
    }
}

/// The Super Serial Card.
pub struct SuperSerialCard {
    rom: MemoryBank,
    expansion_rom: MemoryBank,
    rx_buf: Vec<u8>,
    dipswitch_1: u8,
    dipswitch_2: u8,
    status: u8,
    command: u8,
    control: u8,
    port_open: bool,
}

impl View for SuperSerialCard {
    type V = SuperSerialView;

    closed spec fn view(&self) -> SuperSerialView {
        SuperSerialView {
            rx_buf: self.rx_buf@,
            dipswitch_1: self.dipswitch_1,
            dipswitch_2: self.dipswitch_2,
            status: self.status,
            command: self.command,
            control: self.control,
            port_open: self.port_open,
        }
    }
}

impl SuperSerialCard {
    /// The slot ROM: the last 256 bytes of the card's 2K ROM.
    pub closed spec fn rom_spec(&self) -> Seq<u8> {
        self.rom@
    }

    /// The expansion ROM: the first 0x700 bytes of the card's ROM.
    pub closed spec fn expansion_rom_spec(&self) -> Seq<u8> {
        self.expansion_rom@
    }

    /// A card with the given 2K ROM, in its power-on state.
    pub fn new(rom: &[u8]) -> (c: SuperSerialCard)
        requires
            rom@.len() >= 0x800,
        ensures
            serial_default(c@),
            c.rom_spec() == rom@.subrange(0x700, 0x800),
            c.expansion_rom_spec() == rom@.subrange(0, 0x700),
    {
        let slot_rom = vstd::slice::slice_subrange(rom, 0x700, 0x800);
        let expansion = vstd::slice::slice_subrange(rom, 0, 0x700);
        SuperSerialCard {
            rom: MemoryBank::new_with_data(slot_rom, true),
            expansion_rom: MemoryBank::new_with_data(expansion, true),
            rx_buf: Vec::new(),
            dipswitch_1: 0,
            dipswitch_2: 0,
            status: STATUS_DEFAULT,
            command: 0,
            control: CONTROL_DEFAULT,
            port_open: false,
        }
    }

    /// The parity the command register selects.
    pub fn get_parity(&self) -> (r: SerialParity)
        ensures
            r == parity_spec(self@.command),
    {
        let p = self.command / 32;
        if p == 1 {
            SerialParity::Odd
        } else if p == 3 {
            SerialParity::Even
        } else if p == 5 {
            SerialParity::Mark
        } else if p == 7 {
            SerialParity::Space
        } else {
            SerialParity::NoParity
        }
    }

    /// The baud rate the control register selects.
    pub fn get_baud_rate(&self) -> (r: usize)
        ensures
            r == baud_rate_spec(self@.control),
    {
        let b = self.control % 16;
        if b == 1 { 50 } else if b == 2 { 75 } else if b == 3 { 110 } else if b == 4 { 135 } else if b == 5 { 150 }
        else if b == 6 { 300 } else if b == 7 { 600 } else if b == 8 { 1200 } else if b == 9 { 1800 }
        else if b == 10 { 2400 } else if b == 11 { 3600 } else if b == 12 { 4800 } else if b == 13 { 7200 }
        else if b == 14 { 9600 } else if b == 15 { 19200 } else { 9600 }
    }

    /// Byte `address` of the expansion ROM.
    pub fn read_expansion_rom(&self, address: usize) -> (r: Result<Option<u8>, Error>)
        ensures
            address < self.expansion_rom_spec().len() ==> r == Ok::<Option<u8>, Error>(Some(self.expansion_rom_spec()[address as int])),
            address >= self.expansion_rom_spec().len() ==> r == Err::<Option<u8>, Error>(
                Error::MemoryFault { address, size: self.expansion_rom_spec().len() as usize },
            ),
    {
        match self.expansion_rom.read(address) {
            Ok(b) => Ok(Some(b)),
            Err(e) => Err(e),
        }
    }

    /// Byte `address` of the slot ROM.
    pub fn read_rom(&self, address: usize) -> (r: Result<u8, Error>)
        ensures
            address < self.rom_spec().len() ==> r == Ok::<u8, Error>(self.rom_spec()[address as int]),
            address >= self.rom_spec().len() ==> r == Err::<u8, Error>(
                Error::MemoryFault { address, size: self.rom_spec().len() as usize },
            ),
    {
        self.rom.read(address)
    }

    /// A read of register `address`. The status first tells whether bytes wait; the data
    /// register gives the oldest waiting byte (0 if none) and, once none wait, releases the
    /// card's interrupt.
    pub fn device_read(&mut self, address: usize, cpu: &mut Mos6502) -> (r: Result<u8, Error>)
        ensures
            final(self).rom_spec() == old(self).rom_spec(),
            final(self).expansion_rom_spec() == old(self).expansion_rom_spec(),
            final(cpu).clock_rate() == old(cpu).clock_rate(),
            ({
                let (s, v, release) = serial_read_spec(old(self)@, address);
                &&& final(self)@ == s
                &&& r == Ok::<u8, Error>(v)
                &&& release ==> final(cpu)@ == irq_released(old(cpu)@, IRQ_SOURCE)
                &&& !release ==> final(cpu)@ == old(cpu)@
            }),
    {
        let full = self.rx_buf.len() > 0;
        self.status = set_bit(self.status, 3, full);
        if address == REGISTER_DIPSW1 {
            Ok(self.dipswitch_1)
        } else if address == REGISTER_DIPSW2 {
            Ok(self.dipswitch_2)
        } else if address == REGISTER_DREG {
            let ret = if self.rx_buf.len() > 0 { self.rx_buf.remove(0) } else { 0 };
            if self.rx_buf.len() == 0 && get_bit(self.status, 7) {
                cpu.irq_release(false, IRQ_SOURCE);
                self.status = set_bit(self.status, 7, false);
            }
            Ok(ret)
        } else if address == REGISTER_STATUS {
            Ok(self.status)
        } else if address == REGISTER_CONTROL {
            Ok(self.control)
        } else if address == REGISTER_COMMAND {
            Ok(self.command)
        } else {
            Ok(0)
        }
    }

    /// A write of `value` to register `address`; returns what the card asks of the host
    /// line.
    pub fn device_write(&mut self, address: usize, value: u8, cpu: &mut Mos6502) -> (r: Result<Option<SerialAction>, Error>)
        ensures
            final(self).rom_spec() == old(self).rom_spec(),
            final(self).expansion_rom_spec() == old(self).expansion_rom_spec(),
            final(cpu).clock_rate() == old(cpu).clock_rate(),
            ({
                let (s, action, release) = serial_write_spec(old(self)@, address, value);
                &&& final(self)@ == s
                &&& r == Ok::<Option<SerialAction>, Error>(action)
                &&& release ==> final(cpu)@ == irq_released(old(cpu)@, IRQ_SOURCE)
                &&& !release ==> final(cpu)@ == old(cpu)@
            }),
    {
        let dtr_enabled = get_bit(self.command, 0);
        let mut action: Option<SerialAction> = None;
        if address == REGISTER_DIPSW1 {
            self.dipswitch_1 = value;
        } else if address == REGISTER_DIPSW2 {
            self.dipswitch_2 = value;
        } else if address == REGISTER_DREG {
            if dtr_enabled {
                if self.port_open {
                    action = Some(SerialAction::Send(value % 128));
                }
                if get_bit(self.command, 4) {
                    self.rx_buf.push(value);
                }
                self.status = set_bit(self.status, 4, true);
            }
        } else if address == REGISTER_CONTROL {
            self.control = value;
        } else if address == REGISTER_COMMAND {
            self.command = value;
        }
        let dtr = get_bit(self.command, 0);
        if dtr && !dtr_enabled {
            self.port_open = true;
            return Ok(Some(SerialAction::Open(SerialDeviceOptions { parity: self.get_parity(), baud: self.get_baud_rate() })));
        }
        if !dtr && dtr_enabled {
            let was_open = self.port_open;
            self.port_open = false;
            self.close_serial_port(cpu);
            return Ok(if was_open { Some(SerialAction::Close) } else { None });
        }
        Ok(action)
    }

    /// The line closed: no interrupt, no carrier, no data set ready, and the card's
    /// interrupt released.
    pub fn close_serial_port(&mut self, cpu: &mut Mos6502)
        ensures
            final(self)@ == (SuperSerialView { status: closed_status(old(self)@.status), ..old(self)@ }),
            final(self).rom_spec() == old(self).rom_spec(),
            final(self).expansion_rom_spec() == old(self).expansion_rom_spec(),
            final(cpu)@ == irq_released(old(cpu)@, IRQ_SOURCE),
            final(cpu).clock_rate() == old(cpu).clock_rate(),
    {
        let s1 = set_bit(self.status, 7, false);
        let s2 = set_bit(s1, 5, true);
        self.status = set_bit(s2, 6, true);
        cpu.irq_release(false, IRQ_SOURCE);
    }

    /// The host line opened: carrier and data set ready.
    pub fn port_opened(&mut self)
        ensures
            final(self)@ == (SuperSerialView { status: with_bit(with_bit(old(self)@.status, 5, false), 6, false), ..old(self)@ }),
            final(self).rom_spec() == old(self).rom_spec(),
            final(self).expansion_rom_spec() == old(self).expansion_rom_spec(),
    {
        let s1 = set_bit(self.status, 5, false);
        self.status = set_bit(s1, 6, false);
    }

    /// A byte came in from the host line: it waits to be read and the card raises its
    /// interrupt.
    pub fn receive_byte(&mut self, byte: u8, cpu: &mut Mos6502)
        ensures
            final(self)@ == serial_receive_spec(old(self)@, byte),
            final(self).rom_spec() == old(self).rom_spec(),
            final(self).expansion_rom_spec() == old(self).expansion_rom_spec(),
            final(cpu)@ == (CpuView { irq: old(cpu)@.irq.push(IRQ_SOURCE), ..old(cpu)@ }),
            final(cpu).clock_rate() == old(cpu).clock_rate(),
    {
        self.rx_buf.push(byte);
        self.status = set_bit(self.status, 7, true);
        cpu.irq_trigger(false, IRQ_SOURCE);
    }

    /// Back to the power-on state; the host line is let go.
    pub fn reset(&mut self)
        ensures
            serial_default(final(self)@),
            final(self).rom_spec() == old(self).rom_spec(),
            final(self).expansion_rom_spec() == old(self).expansion_rom_spec(),
    {
        self.rx_buf = Vec::new();
        self.dipswitch_1 = 0;
        self.dipswitch_2 = 0;
        self.status = STATUS_DEFAULT;
        self.command = 0;
        self.control = CONTROL_DEFAULT;
        self.port_open = false;
    }
}

} // verus!
