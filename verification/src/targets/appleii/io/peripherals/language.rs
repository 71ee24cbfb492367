use vstd::prelude::*;

use crate::cpu::mos6502::bus::memory::MemoryBank;
use crate::errors::Error;
use crate::targets::appleii::io::soft_switches::{switch_index, SoftSwitches, Switch};

verus! {

/// One of the two 4K banks at 0xd000.
#[derive(Debug, Clone, Copy, PartialEq, Eq, Structural)]
pub enum Bank {
    One,
    Two,
}

/// Where reads or writes of 0xd000-0xffff go: the card's RAM or the motherboard ROM.
#[derive(Debug, Clone, Copy, PartialEq, Eq, Structural)]
pub enum Location {
    Ram,
    Rom,
}

/// Where reads and writes go.
#[derive(Debug, Clone, Copy, PartialEq, Eq, Structural)]
pub struct Mode {
    pub read: Location,
    pub write: Location,
}

/// The bank selected, where reads and writes go, and whether one more access is needed to
/// enable writing to RAM.
#[derive(Debug, Clone, Copy, PartialEq, Eq, Structural)]
pub struct BankConfig {
    pub bank: Bank,
    pub mode: Mode,
    pub ram_write_pending: bool,
}

/// The configuration after power-on and reset: bank 1, ROM read, ROM write.
pub open spec fn default_bank_config() -> BankConfig {
    BankConfig { bank: Bank::One, mode: Mode { read: Location::Rom, write: Location::Rom }, ram_write_pending: false }
}

impl BankConfig {
    /// Bank 1, reads and writes to ROM, no write pending.
    pub fn default_config() -> (c: BankConfig)
        ensures
            c == default_bank_config(),
    {
        BankConfig { bank: Bank::One, mode: Mode { read: Location::Rom, write: Location::Rom }, ram_write_pending: false }
    }
}

/// The configuration after an access to switch address `address` (0xc080-0xc08f): bit 3
/// selects bank 1, the low two bits where reads and writes go (3: RAM and RAM, 1: ROM and
/// RAM, 2: ROM and ROM, 0: RAM and ROM). Writing to RAM takes two accesses in a row: the
/// first leaves writes where they were.
pub open spec fn handle_access_spec(c: BankConfig, address: usize) -> BankConfig {
    let data = address % 16;
    let bank = if (data / 8) % 2 == 1 { Bank::One } else { Bank::Two };
    let low = data % 4;
    let read = if low == 3 || low == 0 { Location::Ram } else { Location::Rom };
    let write = if low == 3 || low == 1 { Location::Ram } else { Location::Rom };
    if write == Location::Ram {
        if c.ram_write_pending {
            BankConfig { bank, mode: Mode { read, write }, ram_write_pending: false }
        } else {
            BankConfig { bank, mode: Mode { read, write: c.mode.write }, ram_write_pending: true }
        }
    } else {
        BankConfig { bank, mode: Mode { read, write }, ram_write_pending: false }
    }
}

/// The configuration after a write to switch address `address`: the access, with no write
/// pending before or after it (so a write never enables writing to RAM).
pub open spec fn write_access_spec(c: BankConfig, address: usize) -> BankConfig {
    BankConfig { ram_write_pending: false, ..handle_access_spec(BankConfig { ram_write_pending: false, ..c }, address) }
}

/// The soft switches after an access: RDLCRAM tells whether reads go to RAM, RDLBNK2 whether
/// bank 2 is selected.
pub open spec fn config_switches(values: Seq<bool>, c: BankConfig) -> Seq<bool> {
    values.update(switch_index(Switch::Rdlcram), c.mode.read == Location::Ram).update(
        switch_index(Switch::Rdlbnk2),
        c.bank == Bank::Two,
    )
}

/// The 16K language card: two 4K banks at 0xd000 and 8K at 0xe000, switched through
/// 0xc080-0xc08f.
pub struct LanguageCard {
    bank_config: BankConfig,
    bank1: MemoryBank,
    bank2: MemoryBank,
    ram: MemoryBank,
    rom: MemoryBank,
}

impl LanguageCard {
    /// The configuration.
    pub closed spec fn config_spec(&self) -> BankConfig {
        self.bank_config
    }

    /// The bytes of bank 1.
    pub closed spec fn bank1_spec(&self) -> Seq<u8> {
        self.bank1@
    }

    /// The bytes of bank 2.
    pub closed spec fn bank2_spec(&self) -> Seq<u8> {
        self.bank2@
    }

    /// The bytes at 0xe000-0xffff.
    pub closed spec fn ram_spec(&self) -> Seq<u8> {
        self.ram@
    }

    /// The card's slot ROM.
    pub closed spec fn rom_spec(&self) -> Seq<u8> {
        self.rom@
    }

    /// The banks have their sizes and the slot ROM is read-only.
    pub closed spec fn wf(&self) -> bool {
        &&& self.bank1@.len() == 4096
        &&& self.bank2@.len() == 4096
        &&& self.ram@.len() == 8192
        &&& !self.bank1.is_read_only()
        &&& !self.bank2.is_read_only()
        &&& !self.ram.is_read_only()
        &&& self.rom.is_read_only()
    }

    /// A read that the card takes over: where reads go to RAM, 0xd000-0xdfff reads the
    /// selected bank and 0xe000-0xffff the 8K; otherwise the bus answers (`None`).
    pub open spec fn intercept_read_spec(&self, address: usize) -> Option<u8> {
        if self.config_spec().mode.read == Location::Rom {
            None
        } else if 0xd000 <= address <= 0xdfff {
            Some(
                if self.config_spec().bank == Bank::One {
                    self.bank1_spec()[address - 0xd000]
                } else {
                    self.bank2_spec()[address - 0xd000]
                },
            )
        } else if 0xe000 <= address <= 0xffff {
            Some(self.ram_spec()[address - 0xe000])
        } else {
            None
        }
    }

    /// A card with zeroed RAM in its power-on configuration, with the given slot ROM.
    pub fn new(rom: &[u8]) -> (lc: LanguageCard)
        ensures
            lc.wf(),
            lc.config_spec() == default_bank_config(),
            lc.bank1_spec() == Seq::new(4096, |i: int| 0u8),
            lc.bank2_spec() == Seq::new(4096, |i: int| 0u8),
            lc.ram_spec() == Seq::new(8192, |i: int| 0u8),
            lc.rom_spec() == rom@,
    {
        LanguageCard {
            bank_config: BankConfig::default_config(),
            bank1: MemoryBank::new(4096, false),
            bank2: MemoryBank::new(4096, false),
            ram: MemoryBank::new(8192, false),
            rom: MemoryBank::new_with_data(rom, true),
        }
    }

    /// The configuration.
    pub fn config(&self) -> (c: BankConfig)
        ensures
            c == self.config_spec(),
    {
        self.bank_config
    }

    /// The power-on configuration, with both 4K banks zeroed (the 8K stays) and RDLCRAM and
    /// RDLBNK2 off.
    pub fn reset(&mut self, soft_switches: &mut SoftSwitches)
        requires
            old(self).wf(),
        ensures
            final(self).wf(),
            final(self).config_spec() == default_bank_config(),
            final(self).bank1_spec() == Seq::new(4096, |i: int| 0u8),
            final(self).bank2_spec() == Seq::new(4096, |i: int| 0u8),
            final(self).ram_spec() == old(self).ram_spec(),
            final(self).rom_spec() == old(self).rom_spec(),
            final(soft_switches)@ == old(soft_switches)@.update(switch_index(Switch::Rdlcram), false).update(
                switch_index(Switch::Rdlbnk2),
                false,
            ),
    {
        self.bank_config = BankConfig::default_config();
        self.bank1.clear();
        self.bank2.clear();
        soft_switches.set(Switch::Rdlcram, false);
        soft_switches.set(Switch::Rdlbnk2, false);
    }

    /// An access to switch address `address`.
    pub fn handle_access(&mut self, address: usize, soft_switches: &mut SoftSwitches)
        ensures
            final(self).config_spec() == handle_access_spec(old(self).config_spec(), address),
            final(self).wf() == old(self).wf(),
            final(self).bank1_spec() == old(self).bank1_spec(),
            final(self).bank2_spec() == old(self).bank2_spec(),
            final(self).ram_spec() == old(self).ram_spec(),
            final(self).rom_spec() == old(self).rom_spec(),
            final(soft_switches)@ == config_switches(old(soft_switches)@, final(self).config_spec()),
    {
        let data = (address % 16) as u8;
        let bank = if (data / 8) % 2 == 1 { Bank::One } else { Bank::Two };
        let low = data % 4;
        let mut mode = if low == 3 {
            Mode { read: Location::Ram, write: Location::Ram }
        } else if low == 1 {
            Mode { read: Location::Rom, write: Location::Ram }
        } else if low == 2 {
            Mode { read: Location::Rom, write: Location::Rom }
        } else {
            Mode { read: Location::Ram, write: Location::Rom }
        };
        if mode.write == Location::Ram {
            if self.bank_config.ram_write_pending {
                self.bank_config.ram_write_pending = false;
            } else {
                self.bank_config.ram_write_pending = true;
                mode.write = self.bank_config.mode.write;
            }
        } else {
            self.bank_config.ram_write_pending = false;
        }
        soft_switches.set(Switch::Rdlcram, mode.read == Location::Ram);
        soft_switches.set(Switch::Rdlbnk2, bank == Bank::Two);
        self.bank_config.bank = bank;
        self.bank_config.mode = mode;
    }

    /// The card has no expansion ROM.
    pub fn read_expansion_rom(&self, address: usize) -> (r: Result<Option<u8>, Error>)
        ensures
            r == Ok::<Option<u8>, Error>(None),
    {
        Ok(None)
    }

    /// Byte `address` of the slot ROM.
    pub fn read_rom(&self, address: usize) -> (r: Result<u8, Error>)
        requires
            address < self.rom_spec().len(),
        ensures
            r == Ok::<u8, Error>(self.rom_spec()[address as int]),
    {
        self.rom.read(address)
    }

    /// A read of a switch address: the access, and 0.
    pub fn device_read(&mut self, address: usize, soft_switches: &mut SoftSwitches) -> (r: Result<u8, Error>)
        ensures
            r == Ok::<u8, Error>(0),
            final(self).config_spec() == handle_access_spec(old(self).config_spec(), address),
            final(self).wf() == old(self).wf(),
            final(self).bank1_spec() == old(self).bank1_spec(),
            final(self).bank2_spec() == old(self).bank2_spec(),
            final(self).ram_spec() == old(self).ram_spec(),
            final(self).rom_spec() == old(self).rom_spec(),
            final(soft_switches)@ == config_switches(old(soft_switches)@, final(self).config_spec()),
    {
        self.handle_access(address, soft_switches);
        Ok(0)
    }

    /// A write to a switch address: the access, with no write pending before or after it.
    pub fn device_write(&mut self, address: usize, value: u8, soft_switches: &mut SoftSwitches) -> (r: Result<(), Error>)
        ensures
            r is Ok,
            final(self).config_spec() == write_access_spec(old(self).config_spec(), address),
            final(self).wf() == old(self).wf(),
            final(self).bank1_spec() == old(self).bank1_spec(),
            final(self).bank2_spec() == old(self).bank2_spec(),
            final(self).ram_spec() == old(self).ram_spec(),
            final(self).rom_spec() == old(self).rom_spec(),
            final(soft_switches)@ == config_switches(old(soft_switches)@, final(self).config_spec()),
    {
        self.bank_config.ram_write_pending = false;
        self.handle_access(address, soft_switches);
        self.bank_config.ram_write_pending = false;
        Ok(())
    }

    /// A read that the card takes over: where reads go to RAM, 0xd000-0xdfff reads the
    /// selected bank and 0xe000-0xffff the 8K; otherwise the bus answers (`None`).
    pub fn intercept_read(&self, address: usize) -> (r: Option<u8>)
        requires
            self.wf(),
        ensures
            r == self.intercept_read_spec(address),
    {
        if self.bank_config.mode.read == Location::Rom {
            None
        } else if address >= 0xd000 && address <= 0xdfff {
            let v = if self.bank_config.bank == Bank::One {
                self.bank1.read(address - 0xd000)
            } else {
                self.bank2.read(address - 0xd000)
            };
            match v {
                Ok(b) => Some(b),
                Err(_) => None,
            }
        } else if address >= 0xe000 && address <= 0xffff {
            match self.ram.read(address - 0xe000) {
                Ok(b) => Some(b),
                Err(_) => None,
            }
        } else {
            None
        }
    }

    /// A write that the card takes over: where writes go to RAM, 0xd000-0xdfff writes the
    /// selected bank and 0xe000-0xffff the 8K; otherwise the bus takes it (`None`).
    pub fn intercept_write(&mut self, address: usize, data: u8) -> (r: Option<()>)
        requires
            old(self).wf(),
        ensures
            final(self).wf(),
            final(self).config_spec() == old(self).config_spec(),
            final(self).rom_spec() == old(self).rom_spec(),
            old(self).config_spec().mode.write == Location::Rom || !(0xd000 <= address <= 0xffff) ==> r is None
                && *final(self) == *old(self),
            old(self).config_spec().mode.write == Location::Ram && 0xd000 <= address <= 0xdfff ==> r is Some
                && final(self).ram_spec() == old(self).ram_spec() && if old(self).config_spec().bank == Bank::One {
                final(self).bank1_spec() == old(self).bank1_spec().update(address - 0xd000, data)
                    && final(self).bank2_spec() == old(self).bank2_spec()
            } else {
                final(self).bank2_spec() == old(self).bank2_spec().update(address - 0xd000, data)
                    && final(self).bank1_spec() == old(self).bank1_spec()
            },
            old(self).config_spec().mode.write == Location::Ram && 0xe000 <= address <= 0xffff ==> r is Some
                && final(self).ram_spec() == old(self).ram_spec().update(address - 0xe000, data)
                && final(self).bank1_spec() == old(self).bank1_spec() && final(self).bank2_spec() == old(
                self,
            ).bank2_spec(),
    {
        if self.bank_config.mode.write == Location::Rom {
            None
        } else if address >= 0xd000 && address <= 0xdfff {
            if self.bank_config.bank == Bank::One {
                let _ = self.bank1.write(address - 0xd000, data);
            } else {
                let _ = self.bank2.write(address - 0xd000, data);
            }
            Some(())
        } else if address >= 0xe000 && address <= 0xffff {
            let _ = self.ram.write(address - 0xe000, data);
            Some(())
        } else {
            None
        }
    }
}

} // verus!

verus! {

/// An access to a switch address: its low two bits (the address modulo 4) 00 or 11 send reads to the card's RAM,
/// 01 or 10 to the ROM; bit 3 set selects bank 1, clear bank 2; an even address protects
/// the RAM from writes, an odd one enables writing to it only where the access before was
/// an odd one too (else it leaves writes where they were and arms the next).
pub proof fn lemma_switch_access(c: BankConfig, address: usize)
    ensures
        ({
            let n = handle_access_spec(c, address);
            &&& n.mode.read == Location::Ram <==> (address % 4 == 0 || address % 4 == 3)
            &&& n.mode.read == Location::Rom <==> (address % 4 == 1 || address % 4 == 2)
            &&& n.bank == Bank::One <==> (address / 8) % 2 == 1
            &&& address % 2 == 0 ==> n.mode.write == Location::Rom && !n.ram_write_pending
            &&& address % 2 == 1 && c.ram_write_pending ==> n.mode.write == Location::Ram && !n.ram_write_pending
            &&& address % 2 == 1 && !c.ram_write_pending ==> n.mode.write == c.mode.write && n.ram_write_pending
        }),
{
    assert(address % 4 == (address % 16) % 4);
    assert(address % 2 == (address % 16) % 4 % 2);
    assert((address / 8) % 2 == ((address % 16) / 8) % 2);
}

/// Two accesses in a row to an address that selects RAM writes enable writing to RAM,
/// whatever the configuration before; one access alone does not change where writes go.
pub proof fn lemma_double_access_enables_ram_write(c: BankConfig, address: usize)
    requires
        address % 4 == 1 || address % 4 == 3,
    ensures
        handle_access_spec(handle_access_spec(c, address), address).mode.write == Location::Ram,
        !c.ram_write_pending ==> handle_access_spec(c, address).mode.write == c.mode.write,
{
    assert((address % 16) % 4 == address % 4) by (nonlinear_arith);
}

} // verus!
