use vstd::prelude::*;

use crate::cpu::mos6502::bus::memory::MemoryBank;
use crate::errors::Error;

verus! {

/// The Apple IIc ROM bank switch: the 32K ROM shows its first or its second 16K half.
pub struct AppleIICBankSwitcher {
    rom: MemoryBank,
    main: bool,
}

impl AppleIICBankSwitcher {
    /// The ROM.
    pub closed spec fn rom_spec(&self) -> Seq<u8> {
        self.rom@
    }

    /// Whether the ROM ignores writes.
    pub closed spec fn rom_read_only(&self) -> bool {
        self.rom.is_read_only()
    }

    /// Whether the first half shows.
    pub closed spec fn main_spec(&self) -> bool {
        self.main
    }

    /// The switch over `rom`, its first half showing.
    pub fn new(rom: MemoryBank) -> (s: AppleIICBankSwitcher)
        ensures
            s.rom_spec() == rom@,
            s.rom_read_only() == rom.is_read_only(),
            s.main_spec(),
    {
        AppleIICBankSwitcher { rom, main: true }
    }

    /// Shows the other half.
    pub fn toggle_bank(&mut self)
        ensures
            final(self).main_spec() == !old(self).main_spec(),
            final(self).rom_spec() == old(self).rom_spec(),
            final(self).rom_read_only() == old(self).rom_read_only(),
    {
        self.main = !self.main;
    }

    /// Whether the first half shows.
    pub fn is_main_bank(&self) -> (r: bool)
        ensures
            r == self.main_spec(),
    {
        self.main
    }

    /// Byte `address` of the half that shows.
    pub fn read(&self, address: usize) -> (r: Result<u8, Error>)
        requires
            address + 0x4000 <= usize::MAX,
        ensures
            ({
                let a = if self.main_spec() { address } else { (address + 0x4000) as usize };
                &&& a < self.rom_spec().len() ==> r == Ok::<u8, Error>(self.rom_spec()[a as int])
                &&& a >= self.rom_spec().len() ==> r == Err::<u8, Error>(Error::MemoryFault { address: a, size: self.rom_spec().len() as usize })
            }),
    {
        if self.main {
            self.rom.read(address)
        } else {
            self.rom.read(address + 0x4000)
        }
    }

    /// A write to byte `address` of the half that shows (the ROM ignores it where it is
    /// read-only).
    pub fn write(&mut self, address: usize, data: u8) -> (r: Result<(), Error>)
        requires
            address + 0x4000 <= usize::MAX,
        ensures
            final(self).main_spec() == old(self).main_spec(),
            final(self).rom_read_only() == old(self).rom_read_only(),
            ({
                let a = if old(self).main_spec() { address } else { (address + 0x4000) as usize };
                &&& old(self).rom_read_only() ==> r is Ok && final(self).rom_spec() == old(self).rom_spec()
                &&& !old(self).rom_read_only() && a < old(self).rom_spec().len() ==> r is Ok
                    && final(self).rom_spec() == old(self).rom_spec().update(a as int, data)
                &&& !old(self).rom_read_only() && a >= old(self).rom_spec().len() ==> final(self).rom_spec() == old(self).rom_spec()
                    && r == Err::<(), Error>(Error::MemoryFault { address: a, size: old(self).rom_spec().len() as usize })
            }),
    {
        if self.main {
            self.rom.write(address, data)
        } else {
            self.rom.write(address + 0x4000, data)
        }
    }
}

} // verus!
