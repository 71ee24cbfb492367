use vstd::prelude::*;

use crate::cpu::mos6502::bus::memory::MemoryBank;
use crate::errors::Error;
use crate::targets::appleii::io::peripherals::language::{Bank, BankConfig, Location};
use crate::targets::appleii::io::soft_switches::{switch_index, SoftSwitches, Switch};

verus! {

/// Where the auxiliary memory card sends an access: its 64K, one of its two 4K banks at
/// 0xd000 (with the offset into it), or nowhere (the main memory answers).
#[derive(Debug, Clone, Copy, PartialEq, Eq, Structural)]
pub enum AuxTarget {
    Memory(usize),
    Bank1(usize),
    Bank2(usize),
    Pass,
}

/// Whether soft switch `s` is on.
pub open spec fn sw(values: Seq<bool>, s: Switch) -> bool {
    values[switch_index(s)]
}

/// Where an access (a read or a write) to `address` goes: the zero page and stack with
/// ALTZP; the language card area with ALTZP where the card sends the access to RAM; text
/// page 1 and, in hires, graphics page 1 with 80STORE (the auxiliary copy with PAGE2); the
/// rest of 0x200-0xbfff with RAMRD (reads) or RAMWRT (writes).
pub open spec fn aux_route(address: usize, values: Seq<bool>, config: BankConfig, write: bool) -> AuxTarget {
    let to_ram = if write { config.mode.write == Location::Ram } else { config.mode.read == Location::Ram };
    let aux = if write { sw(values, Switch::Ramwrt) } else { sw(values, Switch::Ramrd) };
    if address <= 0x1ff && sw(values, Switch::Altzp) {
        AuxTarget::Memory(address)
    } else if 0xd000 <= address <= 0xdfff && sw(values, Switch::Altzp) && to_ram {
        if config.bank == Bank::Two {
            AuxTarget::Bank2((address - 0xd000) as usize)
        } else {
            AuxTarget::Bank1((address - 0xd000) as usize)
        }
    } else if address >= 0xe000 && sw(values, Switch::Altzp) && to_ram {
        AuxTarget::Memory(address)
    } else if sw(values, Switch::Eightystore) && 0x400 <= address <= 0x7ff {
        if sw(values, Switch::PageTwo) {
            AuxTarget::Memory(address)
        } else {
            AuxTarget::Pass
        }
    } else if sw(values, Switch::Eightystore) && 0x2000 <= address <= 0x3fff && sw(values, Switch::HiresMode) {
        if sw(values, Switch::PageTwo) {
            AuxTarget::Memory(address)
        } else {
            AuxTarget::Pass
        }
    } else if aux && 0x200 <= address <= 0xbfff {
        AuxTarget::Memory(address)
    } else {
        AuxTarget::Pass
    }
}

/// The extended 80-column text card: 64K of auxiliary memory and its own two 4K banks at
/// 0xd000.
pub struct Extended80ColumnText {
    memory: MemoryBank,
    bank1: MemoryBank,
    bank2: MemoryBank,
}

impl Extended80ColumnText {
    /// The 64K of auxiliary memory.
    pub closed spec fn memory_spec(&self) -> Seq<u8> {
        self.memory@
    }

    /// The first 4K bank.
    pub closed spec fn bank1_spec(&self) -> Seq<u8> {
        self.bank1@
    }

    /// The second 4K bank.
    pub closed spec fn bank2_spec(&self) -> Seq<u8> {
        self.bank2@
    }

    /// The memories have their sizes and can be written.
    pub closed spec fn wf(&self) -> bool {
        &&& self.memory@.len() == 0x10000
        &&& self.bank1@.len() == 0x1000
        &&& self.bank2@.len() == 0x1000
        &&& !self.memory.is_read_only()
        &&& !self.bank1.is_read_only()
        &&& !self.bank2.is_read_only()
    }

    /// A well-formed card has 64K of auxiliary memory.
    pub proof fn lemma_memory_len(&self)
        requires
            self.wf(),
        ensures
            self.memory_spec().len() == 0x10000,
    {
    }

    /// A card with zeroed memory.
    pub fn new() -> (t: Extended80ColumnText)
        ensures
            t.wf(),
            t.memory_spec() == Seq::new(0x10000, |i: int| 0u8),
            t.bank1_spec() == Seq::new(0x1000, |i: int| 0u8),
            t.bank2_spec() == Seq::new(0x1000, |i: int| 0u8),
    {
        Extended80ColumnText {
            bank1: MemoryBank::new(0x1000, false),
            bank2: MemoryBank::new(0x1000, false),
            memory: MemoryBank::new(0x10000, false),
        }
    }

    /// Zeroes all memory.
    pub fn reset(&mut self)
        requires
            old(self).wf(),
        ensures
            final(self).wf(),
            final(self).memory_spec() == Seq::new(0x10000, |i: int| 0u8),
            final(self).bank1_spec() == Seq::new(0x1000, |i: int| 0u8),
            final(self).bank2_spec() == Seq::new(0x1000, |i: int| 0u8),
    {
        self.memory.clear();
        self.bank1.clear();
        self.bank2.clear();
    }

    fn route(address: usize, soft_switches: &SoftSwitches, config: BankConfig, write: bool) -> (r: AuxTarget)
        ensures
            r == aux_route(address, soft_switches@, config, write),
            r matches AuxTarget::Bank1(o) ==> o < 0x1000,
            r matches AuxTarget::Bank2(o) ==> o < 0x1000,
    {
        let to_ram = if write { config.mode.write == Location::Ram } else { config.mode.read == Location::Ram };
        let aux = if write { soft_switches.get(Switch::Ramwrt) } else { soft_switches.get(Switch::Ramrd) };
        let altzp = soft_switches.get(Switch::Altzp);
        let eightystore = soft_switches.get(Switch::Eightystore);
        if address <= 0x1ff && altzp {
            AuxTarget::Memory(address)
        } else if address >= 0xd000 && address <= 0xdfff && altzp && to_ram {
            if config.bank == Bank::Two {
                AuxTarget::Bank2(address - 0xd000)
            } else {
                AuxTarget::Bank1(address - 0xd000)
            }
        } else if address >= 0xe000 && altzp && to_ram {
            AuxTarget::Memory(address)
        } else if eightystore && address >= 0x400 && address <= 0x7ff {
            if soft_switches.get(Switch::PageTwo) {
                AuxTarget::Memory(address)
            } else {
                AuxTarget::Pass
            }
        } else if eightystore && address >= 0x2000 && address <= 0x3fff && soft_switches.get(Switch::HiresMode) {
            if soft_switches.get(Switch::PageTwo) {
                AuxTarget::Memory(address)
            } else {
                AuxTarget::Pass
            }
        } else if aux && address >= 0x200 && address <= 0xbfff {
            AuxTarget::Memory(address)
        } else {
            AuxTarget::Pass
        }
    }

    /// A read that the card takes over (`Some`), or leaves to the main memory (`None`). An
    /// address past 64K sent to the auxiliary memory fails.
    pub fn intercept_read(&self, address: usize, soft_switches: &SoftSwitches, config: BankConfig) -> (r: Result<Option<u8>, Error>)
        requires
            self.wf(),
        ensures
            match aux_route(address, soft_switches@, config, false) {
                AuxTarget::Memory(a) => if a < 0x10000 {
                    r == Ok::<Option<u8>, Error>(Some(self.memory_spec()[a as int]))
                } else {
                    r == Err::<Option<u8>, Error>(Error::MemoryFault { address: a, size: 0x10000 })
                },
                AuxTarget::Bank1(o) => r == Ok::<Option<u8>, Error>(Some(self.bank1_spec()[o as int])),
                AuxTarget::Bank2(o) => r == Ok::<Option<u8>, Error>(Some(self.bank2_spec()[o as int])),
                AuxTarget::Pass => r == Ok::<Option<u8>, Error>(None),
            },
    {
        let v = match Self::route(address, soft_switches, config, false) {
            AuxTarget::Memory(a) => self.memory.read(a),
            AuxTarget::Bank1(o) => self.bank1.read(o),
            AuxTarget::Bank2(o) => self.bank2.read(o),
            AuxTarget::Pass => return Ok(None),
        };
        match v {
            Ok(b) => Ok(Some(b)),
            Err(e) => Err(e),
        }
    }

    /// A write that the card takes over (`Some`), or leaves to the main memory (`None`).
    /// An address past 64K sent to the auxiliary memory fails.
    pub fn intercept_write(&mut self, address: usize, data: u8, soft_switches: &SoftSwitches, config: BankConfig) -> (r: Result<Option<()>, Error>)
        requires
            old(self).wf(),
        ensures
            final(self).wf(),
            match aux_route(address, soft_switches@, config, true) {
                AuxTarget::Memory(a) => if a < 0x10000 {
                    r == Ok::<Option<()>, Error>(Some(())) && final(self).memory_spec() == old(self).memory_spec().update(a as int, data)
                        && final(self).bank1_spec() == old(self).bank1_spec() && final(self).bank2_spec() == old(self).bank2_spec()
                } else {
                    r == Err::<Option<()>, Error>(Error::MemoryFault { address: a, size: 0x10000 })
                        && final(self).memory_spec() == old(self).memory_spec()
                        && final(self).bank1_spec() == old(self).bank1_spec() && final(self).bank2_spec() == old(self).bank2_spec()
                },
                AuxTarget::Bank1(o) => r == Ok::<Option<()>, Error>(Some(())) && final(self).bank1_spec() == old(self).bank1_spec().update(o as int, data)
                    && final(self).memory_spec() == old(self).memory_spec() && final(self).bank2_spec() == old(self).bank2_spec(),
                AuxTarget::Bank2(o) => r == Ok::<Option<()>, Error>(Some(())) && final(self).bank2_spec() == old(self).bank2_spec().update(o as int, data)
                    && final(self).memory_spec() == old(self).memory_spec() && final(self).bank1_spec() == old(self).bank1_spec(),
                AuxTarget::Pass => r == Ok::<Option<()>, Error>(None) && *final(self) == *old(self),
            },
    {
        let v = match Self::route(address, soft_switches, config, true) {
            AuxTarget::Memory(a) => self.memory.write(a, data),
            AuxTarget::Bank1(o) => self.bank1.write(o, data),
            AuxTarget::Bank2(o) => self.bank2.write(o, data),
            AuxTarget::Pass => return Ok(None),
        };
        match v {
            Ok(()) => Ok(Some(())),
            Err(e) => Err(e),
        }
    }

    /// Byte `address` of the auxiliary memory.
    pub fn read(&self, address: usize) -> (r: Result<u8, Error>)
        requires
            self.wf(),
        ensures
            address < 0x10000 ==> r == Ok::<u8, Error>(self.memory_spec()[address as int]),
            address >= 0x10000 ==> r == Err::<u8, Error>(Error::MemoryFault { address, size: 0x10000 }),
    {
        self.memory.read(address)
    }

    /// Writes byte `address` of the auxiliary memory.
    pub fn write(&mut self, address: usize, data: u8) -> (r: Result<(), Error>)
        requires
            old(self).wf(),
        ensures
            final(self).wf(),
            final(self).bank1_spec() == old(self).bank1_spec(),
            final(self).bank2_spec() == old(self).bank2_spec(),
            address < 0x10000 ==> r is Ok && final(self).memory_spec() == old(self).memory_spec().update(address as int, data),
            address >= 0x10000 ==> r == Err::<(), Error>(Error::MemoryFault { address, size: 0x10000 })
                && final(self).memory_spec() == old(self).memory_spec(),
    {
        self.memory.write(address, data)
    }
}

} // verus!
