use vstd::prelude::*;

use crate::errors::Error;
use crate::targets::appleii::io::soft_switches::{switch_index, SoftSwitches, Switch};

verus! {

/// The cards that can sit in a slot.
#[derive(Debug, Clone, Copy, PartialEq, Eq, Structural)]
pub enum PeripheralKind {
    LanguageCard,
    SuperSerialCard,
    MouseCard,
    Smartport,
    DiskII,
}

/// Where a read of the slot area (0xc080-0xcfff, given relative to 0xc000) goes.
#[derive(Debug, Clone, Copy, PartialEq, Eq, Structural)]
pub enum PeripheralRead {
    /// The machine's internal ROM, at the same address.
    InternalRom(usize),
    /// The 2K expansion ROM of the card in `slot`; where the card has none, the internal ROM
    /// answers if `fallback` (the machine has one), else the read gives 0.
    ExpansionRom { slot: usize, offset: usize, fallback: bool },
    /// The 256-byte ROM of the card in `slot`.
    SlotRom { slot: usize, offset: usize },
    /// One of the 16 device registers of the card in `slot`.
    Device { slot: usize, offset: usize },
    /// Nothing answers: the read gives this value.
    Value(u8),
}

/// Where a write to the slot area goes.
#[derive(Debug, Clone, Copy, PartialEq, Eq, Structural)]
pub enum PeripheralWrite {
    /// One of the 16 device registers of the card in `slot`.
    Device { slot: usize, offset: usize },
    /// Nothing takes it.
    Ignored,
}

/// The state of the slots: which card sits in each, which card's expansion ROM is
/// selected, and whether the internal ROM holds 0xc800-0xcfff.
pub struct PeripheralManagerView {
    pub peripherals: Seq<Option<PeripheralKind>>,
    pub active_slot_expansion_rom: Option<usize>,
    pub intc8rom: bool,
    pub has_internal_rom: bool,
}

/// The first device register or slot ROM, from slot `idx` on, that `address` reaches, with
/// the expansion ROM that a slot ROM read selects.
pub open spec fn slot_read_from(v: PeripheralManagerView, address: usize, idx: int) -> (Option<usize>, PeripheralRead)
    decreases 8 - idx,
{
    if idx < 0 || idx >= 8 {
        (v.active_slot_expansion_rom, PeripheralRead::Value(0))
    } else if v.peripherals[idx] is Some {
        if 0x800 <= address < 0x1000 && v.active_slot_expansion_rom == Some(idx as usize) {
            (v.active_slot_expansion_rom, PeripheralRead::ExpansionRom { slot: idx as usize, offset: (address - 0x800) as usize, fallback: v.has_internal_rom })
        } else if idx > 0 && idx * 0x100 <= address < idx * 0x100 + 0x100 {
            (Some(idx as usize), PeripheralRead::SlotRom { slot: idx as usize, offset: (address - idx * 0x100) as usize })
        } else if 0x80 + idx * 0x10 <= address < 0x80 + idx * 0x10 + 0x10 {
            (v.active_slot_expansion_rom, PeripheralRead::Device { slot: idx as usize, offset: (address - (0x80 + idx * 0x10)) as usize })
        } else {
            slot_read_from(v, address, idx + 1)
        }
    } else {
        slot_read_from(v, address, idx + 1)
    }
}

/// The routes that a read of the slots gives name a slot, and a slot ROM offset within the
/// page.
pub open spec fn route_in_range(r: PeripheralRead) -> bool {
    match r {
        PeripheralRead::ExpansionRom { slot, offset, fallback } => slot < 8 && offset < 0x800,
        PeripheralRead::SlotRom { slot, offset } => slot < 8 && offset < 0x100,
        PeripheralRead::Device { slot, offset } => slot < 8,
        _ => true,
    }
}

proof fn lemma_slot_read_from_range(v: PeripheralManagerView, address: usize, idx: int)
    ensures
        route_in_range(slot_read_from(v, address, idx).1),
        !(slot_read_from(v, address, idx).1 is InternalRom),
    decreases 8 - idx,
{
    if 0 <= idx < 8 {
        lemma_slot_read_from_range(v, address, idx + 1);
    }
}

proof fn lemma_slot_write_from_range(v: PeripheralManagerView, address: usize, idx: int)
    ensures
        slot_write_from(v, address, idx) matches PeripheralWrite::Device { slot, offset } ==> slot < 8,
    decreases 8 - idx,
{
    if 0 <= idx < 8 {
        lemma_slot_write_from_range(v, address, idx + 1);
    }
}

/// Where a read of `address` goes, and the slot state after it. Reading 0xc300-0xc3ff with
/// the slot 3 ROM off selects the internal 0xc800 ROM, and the internal ROM answers there
/// (as it does all of 0xc100-0xcfff with INTCXROM); 0xcfff deselects every expansion ROM;
/// reading a slot's ROM selects its expansion ROM.
pub open spec fn peripheral_read_spec(v: PeripheralManagerView, address: usize, values: Seq<bool>) -> (PeripheralManagerView, PeripheralRead) {
    let c3 = values[switch_index(Switch::C3romSlot)];
    let cx = values[switch_index(Switch::Intcxrom)];
    let v1 = if 0x300 <= address <= 0x3ff && !c3 { PeripheralManagerView { intc8rom: true, ..v } } else { v };
    if 0x300 <= address <= 0x3ff && v.has_internal_rom && (!c3 || cx) {
        (v1, PeripheralRead::InternalRom(address))
    } else if 0x100 <= address <= 0xfff && v.has_internal_rom && cx {
        (v1, PeripheralRead::InternalRom(address))
    } else if address == 0xfff {
        (PeripheralManagerView { active_slot_expansion_rom: None, intc8rom: false, ..v1 }, PeripheralRead::Value(0))
    } else if 0x800 <= address < 0x1000 && v1.intc8rom && v.has_internal_rom {
        (v1, PeripheralRead::InternalRom(address))
    } else {
        let (active, r) = slot_read_from(v1, address, 0);
        (PeripheralManagerView { active_slot_expansion_rom: active, ..v1 }, r)
    }
}

/// The first device register, from slot `idx` on, that `address` reaches.
pub open spec fn slot_write_from(v: PeripheralManagerView, address: usize, idx: int) -> PeripheralWrite
    decreases 8 - idx,
{
    if idx < 0 || idx >= 8 {
        PeripheralWrite::Ignored
    } else if v.peripherals[idx] is Some && 0x80 + idx * 0x10 <= address < 0x80 + idx * 0x10 + 0x10 {
        PeripheralWrite::Device { slot: idx as usize, offset: (address - (0x80 + idx * 0x10)) as usize }
    } else {
        slot_write_from(v, address, idx + 1)
    }
}

/// Where a write to `address` goes, and the slot state after it: 0xcfff deselects every
/// expansion ROM.
pub open spec fn peripheral_write_spec(v: PeripheralManagerView, address: usize) -> (PeripheralManagerView, PeripheralWrite) {
    if address == 0xfff {
        (PeripheralManagerView { active_slot_expansion_rom: None, intc8rom: false, ..v }, PeripheralWrite::Ignored)
    } else {
        (v, slot_write_from(v, address, 0))
    }
}

/// The eight slots of the Apple II and the routing of the slot area.
pub struct PeripheralManager {
    peripherals: [Option<PeripheralKind>; 8],
    active_slot_expansion_rom: Option<usize>,
    intc8rom: bool,
    has_internal_rom: bool,
}

impl View for PeripheralManager {
    type V = PeripheralManagerView;

    closed spec fn view(&self) -> PeripheralManagerView {
        PeripheralManagerView {
            peripherals: self.peripherals@,
            active_slot_expansion_rom: self.active_slot_expansion_rom,
            intc8rom: self.intc8rom,
            has_internal_rom: self.has_internal_rom,
        }
    }
}

impl PeripheralManager {
    /// Empty slots; `has_internal_rom` where the machine (an Apple IIe or IIc) has ROM behind
    /// the slot area.
    pub fn new(has_internal_rom: bool) -> (m: PeripheralManager)
        ensures
            m@.peripherals.len() == 8,
            m@.peripherals == Seq::new(8, |i: int| None::<PeripheralKind>),
            m@.active_slot_expansion_rom is None,
            !m@.intc8rom,
            m@.has_internal_rom == has_internal_rom,
    {
        let m = PeripheralManager { peripherals: [None; 8], active_slot_expansion_rom: None, intc8rom: false, has_internal_rom };
        assert(m@.peripherals =~= Seq::new(8, |i: int| None::<PeripheralKind>));
        m
    }

    /// Deselects the internal 0xc800 ROM; the cards are reset by their owner.
    pub fn reset(&mut self)
        ensures
            final(self)@.peripherals.len() == 8,
            final(self)@ == (PeripheralManagerView { intc8rom: false, ..old(self)@ }),
    {
        self.intc8rom = false;
    }

    /// Whether slot `index` holds a card (any index past 7 counts as taken).
    pub fn is_assigned(&self, index: usize) -> (r: bool)
        ensures
            self@.peripherals.len() == 8,
            index < 8 ==> r == self@.peripherals[index as int] is Some,
            index >= 8 ==> r,
    {
        if index < 8 {
            return self.peripherals[index].is_some();
        }
        true
    }

    /// Empties slot `index`.
    pub fn unassign(&mut self, index: usize)
        ensures
            final(self)@.peripherals.len() == 8,
            index < 8 ==> final(self)@ == (PeripheralManagerView {
                peripherals: old(self)@.peripherals.update(index as int, None),
                ..old(self)@
            }),
            index >= 8 ==> final(self)@ == old(self)@,
    {
        if index < 8 {
            self.peripherals[index] = None;
        }
    }

    /// Puts a card in slot `index`; fails for an index past 7 or a slot that is taken.
    pub fn assign(&mut self, index: usize, peripheral: PeripheralKind) -> (r: Result<(), Error>)
        ensures
            final(self)@.peripherals.len() == 8,
            index > 7 ==> r == Err::<(), Error>(Error::InvalidSlot) && final(self)@ == old(self)@,
            index <= 7 && old(self)@.peripherals[index as int] is Some ==> r == Err::<(), Error>(
                Error::SlotOccupied { slot: index },
            ) && final(self)@ == old(self)@,
            index <= 7 && old(self)@.peripherals[index as int] is None ==> r is Ok && final(self)@ == (
            PeripheralManagerView {
                peripherals: old(self)@.peripherals.update(index as int, Some(peripheral)),
                ..old(self)@
            }),
    {
        if index > 7 {
            return Err(Error::InvalidSlot);
        }
        if self.peripherals[index].is_some() {
            return Err(Error::SlotOccupied { slot: index });
        }
        self.peripherals[index] = Some(peripheral);
        Ok(())
    }

    /// The card in slot `index`.
    pub fn kind_at(&self, index: usize) -> (r: Option<PeripheralKind>)
        requires
            index < 8,
        ensures
            self@.peripherals.len() == 8,
            r == self@.peripherals[index as int],
    {
        self.peripherals[index]
    }

    /// The first of the 16 device registers of slot `index`.
    pub fn get_device_addr(index: usize) -> (r: usize)
        requires
            index < 8,
        ensures
            r == 0x80 + index * 0x10,
    {
        0x80 + (index * 0x10)
    }

    /// Where a read of `address` goes.
    pub fn read(&mut self, address: usize, soft_switches: &SoftSwitches) -> (r: PeripheralRead)
        ensures
            final(self)@.peripherals.len() == 8,
            (final(self)@, r) == peripheral_read_spec(old(self)@, address, soft_switches@),
            route_in_range(r),
            r matches PeripheralRead::InternalRom(x) ==> x == address,
    {
        proof {
            let v = old(self)@;
            let c3 = soft_switches@[switch_index(Switch::C3romSlot)];
            let v1 = if 0x300 <= address <= 0x3ff && !c3 { PeripheralManagerView { intc8rom: true, ..v } } else { v };
            lemma_slot_read_from_range(v1, address, 0);
        }
        let c3 = soft_switches.get(Switch::C3romSlot);
        let cx = soft_switches.get(Switch::Intcxrom);
        if address >= 0x300 && address <= 0x3ff {
            if !c3 {
                self.intc8rom = true;
            }
            if self.has_internal_rom && (!c3 || cx) {
                return PeripheralRead::InternalRom(address);
            }
        }
        if address >= 0x100 && address <= 0xfff && self.has_internal_rom && cx {
            return PeripheralRead::InternalRom(address);
        }
        if address == 0xfff {
            self.active_slot_expansion_rom = None;
            self.intc8rom = false;
            return PeripheralRead::Value(0);
        }
        if address >= 0x800 && address < 0x1000 && self.intc8rom && self.has_internal_rom {
            return PeripheralRead::InternalRom(address);
        }
        let ghost v1 = self@;
        assert(peripheral_read_spec(old(self)@, address, soft_switches@) == ({
            let (active, r) = slot_read_from(v1, address, 0);
            (PeripheralManagerView { active_slot_expansion_rom: active, ..v1 }, r)
        }));
        let mut idx: usize = 0;
        while idx < 8
            invariant
                idx <= 8,
                self@ == v1,
                peripheral_read_spec(old(self)@, address, soft_switches@) == ({
                    let (active, r) = slot_read_from(v1, address, 0);
                    (PeripheralManagerView { active_slot_expansion_rom: active, ..v1 }, r)
                }),
                slot_read_from(self@, address, 0) == slot_read_from(self@, address, idx as int),
            decreases 8 - idx,
        {
            if self.peripherals[idx].is_some() {
                if address >= 0x800 && address < 0x1000 && self.active_slot_expansion_rom == Some(idx) {
                    assert(self@ =~= (PeripheralManagerView { active_slot_expansion_rom: Some(idx), ..v1 }));
                    return PeripheralRead::ExpansionRom { slot: idx, offset: address - 0x800, fallback: self.has_internal_rom };
                }
                if idx > 0 {
                    let base_rom = idx * 0x100;
                    if address >= base_rom && address < base_rom + 0x100 {
                        self.active_slot_expansion_rom = Some(idx);
                        assert(self@ =~= (PeripheralManagerView { active_slot_expansion_rom: Some(idx), ..v1 }));
                        return PeripheralRead::SlotRom { slot: idx, offset: address - base_rom };
                    }
                }
                let base_device_select = Self::get_device_addr(idx);
                if address >= base_device_select && address < base_device_select + 0x10 {
                    return PeripheralRead::Device { slot: idx, offset: address - base_device_select };
                }
            }
            idx += 1;
        }
        assert(self@ =~= (PeripheralManagerView { active_slot_expansion_rom: v1.active_slot_expansion_rom, ..v1 }));
        PeripheralRead::Value(0)
    }

    /// Where a write to `address` goes.
    pub fn write(&mut self, address: usize, data: u8) -> (r: PeripheralWrite)
        ensures
            final(self)@.peripherals.len() == 8,
            (final(self)@, r) == peripheral_write_spec(old(self)@, address),
            r matches PeripheralWrite::Device { slot, offset } ==> slot < 8,
    {
        proof {
            lemma_slot_write_from_range(old(self)@, address, 0);
        }
        if address == 0xfff {
            self.active_slot_expansion_rom = None;
            self.intc8rom = false;
            return PeripheralWrite::Ignored;
        }
        let mut idx: usize = 0;
        while idx < 8
            invariant
                idx <= 8,
                self@ == old(self)@,
                address != 0xfff,
                slot_write_from(self@, address, 0) == slot_write_from(self@, address, idx as int),
            decreases 8 - idx,
        {
            if self.peripherals[idx].is_some() {
                let base_device_select = Self::get_device_addr(idx);
                if address >= base_device_select && address < base_device_select + 0x10 {
                    return PeripheralWrite::Device { slot: idx, offset: address - base_device_select };
                }
            }
            idx += 1;
        }
        PeripheralWrite::Ignored
    }
}

} // verus!

verus! {

proof fn lemma_slot_rom_read_from(v: PeripheralManagerView, address: usize, s: int, idx: int)
    requires
        v.peripherals.len() == 8,
        1 <= s < 8,
        0 <= idx <= s,
        v.peripherals[s] is Some,
        s * 0x100 <= address < s * 0x100 + 0x100,
    ensures
        slot_read_from(v, address, idx) == (
            Some(s as usize),
            (PeripheralRead::SlotRom { slot: s as usize, offset: (address - s * 0x100) as usize }),
        ),
    decreases s - idx,
{
    if idx < s {
        lemma_slot_rom_read_from(v, address, s, idx + 1);
        if v.peripherals[idx] is Some {
            assert(!(idx > 0 && idx * 0x100 <= address < idx * 0x100 + 0x100));
            assert(!(0x80 + idx * 0x10 <= address < 0x80 + idx * 0x10 + 0x10));
        }
    }
}

proof fn lemma_expansion_read_from(v: PeripheralManagerView, address: usize, s: int, idx: int)
    requires
        v.peripherals.len() == 8,
        0 <= s < 8,
        0 <= idx <= s,
        v.peripherals[s] is Some,
        v.active_slot_expansion_rom == Some(s as usize),
        0x800 <= address < 0x1000,
    ensures
        slot_read_from(v, address, idx).1 == (PeripheralRead::ExpansionRom {
            slot: s as usize,
            offset: (address - 0x800) as usize,
            fallback: v.has_internal_rom,
        }),
    decreases s - idx,
{
    if idx < s {
        lemma_expansion_read_from(v, address, s, idx + 1);
    }
}

/// Reading a card's ROM page (0xcn00-0xcnff for slot n) selects the card's expansion ROM:
/// a read of 0xc800-0xcffe that follows goes to it, on a machine with no internal ROM.
pub proof fn lemma_slot_rom_selects_expansion_rom(v: PeripheralManagerView, values: Seq<bool>, slot: usize, rom_address: usize, address: usize)
    requires
        v.peripherals.len() == 8,
        values.len() == 21,
        !v.has_internal_rom,
        1 <= slot < 8,
        v.peripherals[slot as int] is Some,
        slot * 0x100 <= rom_address < slot * 0x100 + 0x100,
        0x800 <= address < 0xfff,
    ensures
        ({
            let (v1, r1) = peripheral_read_spec(v, rom_address, values);
            let (v2, r2) = peripheral_read_spec(v1, address, values);
            &&& r1 == PeripheralRead::SlotRom { slot, offset: (rom_address - slot * 0x100) as usize }
            &&& r2 == PeripheralRead::ExpansionRom { slot, offset: (address - 0x800) as usize, fallback: false }
        }),
{
    let c3 = values[switch_index(Switch::C3romSlot)];
    let v1 = if 0x300 <= rom_address <= 0x3ff && !c3 { PeripheralManagerView { intc8rom: true, ..v } } else { v };
    lemma_slot_rom_read_from(v1, rom_address, slot as int, 0);
    let w = PeripheralManagerView { active_slot_expansion_rom: Some(slot), ..v1 };
    lemma_expansion_read_from(w, address, slot as int, 0);
}

} // verus!
