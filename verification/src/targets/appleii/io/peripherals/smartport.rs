use vstd::prelude::*;

use crate::cpu::mos6502::bus::{bus_read, bus_read_u16, mapped, same_map, word_mapped, wrap16, wrap_add16, SlaveView};
use crate::cpu::mos6502::bus::memory::MemoryBank;
use crate::cpu::mos6502::host::with_writes;
use crate::cpu::mos6502::{CpuView, Mos6502};
use crate::errors::Error;

verus! {

/// The ProDOS command byte of a dispatch call.
pub const MLI_COMMAND: u16 = 0x42;
/// The unit number of a dispatch call.
pub const MLI_UNIT_NUMBER: u16 = 0x43;
/// The buffer address of a dispatch call.
pub const MLI_BUFFER: u16 = 0x44;
/// The block number of a dispatch call.
pub const MLI_BLOCK: u16 = 0x46;
/// The ProDOS error for a command the device does not know.
pub const MLI_IO_ERROR: u8 = 0x27;
/// The Smartport error for a command the device does not know.
pub const SMARTPORT_ERR_BAD_COMMAND: u8 = 1;
/// The Smartport error for a wrong parameter count.
pub const SMARTPORT_ERR_BAD_PARAM_COUNT: u8 = 4;
/// The Smartport error for a status code the device does not know.
pub const SMARTPORT_ERR_BAD_STATUS_CODE: u8 = 0x21;

/// The name the device gives in its status: "SMARTPORT_DEVICE".
pub const DEVICE_NAME: [u8; 16] = [83, 77, 65, 82, 84, 80, 79, 82, 84, 95, 68, 69, 86, 73, 67, 69];

/// The command and parameter list that a Smartport call set up.
#[derive(Debug, Clone, Copy, PartialEq, Eq, Structural)]
pub struct SmartportArgs {
    pub command: u8,
    pub param_list: u16,
}

/// The state of the Smartport hard disk: the disk image, the X and Y results of the last
/// call and the arguments of the current Smartport call.
pub struct SmartportView {
    pub data: Seq<u8>,
    pub dispatch_x: u8,
    pub dispatch_y: u8,
    pub smartport_args: SmartportArgs,
}

/// The number of 512-byte blocks a call reports: a 32M image reports one less.
pub open spec fn total_blocks(len: nat) -> nat {
    if len / 512 == 65536 {
        65535
    } else {
        len / 512
    }
}

/// The writes that copy the boot block to 0x800.
pub open spec fn boot_writes(data: Seq<u8>) -> Seq<(u16, u8)> {
    Seq::new(512, |x: int| ((0x800 + x) as u16, data[x]))
}

/// The writes that copy block bytes from `offset` on to `buffer` (wrapping).
pub open spec fn block_writes(data: Seq<u8>, buffer: u16, offset: int) -> Seq<(u16, u8)> {
    Seq::new(512, |x: int| (wrap16(buffer + x), data[offset + x]))
}

/// The writes of the port status: whether a disk is there, no interrupts, and zeros.
pub open spec fn port_status_writes(sp: u16, has_data: bool) -> Seq<(u16, u8)> {
    seq![
        (sp, if has_data { 1u8 } else { 0u8 }),
        (wrap_add16(sp, 1), 0x40u8),
        (wrap_add16(sp, 2), 0u8),
        (wrap_add16(sp, 3), 0u8),
        (wrap_add16(sp, 4), 0u8),
        (wrap_add16(sp, 5), 0u8),
        (wrap_add16(sp, 6), 0u8),
        (wrap_add16(sp, 7), 0u8),
    ]
}

/// The writes of the device status: a block device that can be read, written and
/// formatted, its block count in three bytes, its name with its length, type 3 (SCSI)
/// subtype 0, and version 1.
pub open spec fn device_status_writes(sp: u16, blocks: nat) -> Seq<(u16, u8)> {
    seq![
        (sp, 0xfcu8),
        (wrap_add16(sp, 1), (blocks % 256) as u8),
        (wrap_add16(sp, 2), ((blocks / 256) % 256) as u8),
        (wrap_add16(sp, 3), ((blocks / 65536) % 256) as u8),
        (wrap_add16(sp, 4), 16u8),
    ] + Seq::new(16, |k: int| (wrap_add16(sp, 5 + k), DEVICE_NAME@[k])) + seq![
        (wrap_add16(sp, 21), 3u8),
        (wrap_add16(sp, 22), 0u8),
        (wrap_add16(sp, 23), 1u8),
        (wrap_add16(sp, 24), 0u8),
    ]
}

/// What a read of device register `address` does: the card state after it, the bus
/// writes it makes, and the value read.
pub open spec fn smartport_read_spec(s: SmartportView, bus: CpuView, address: usize) -> (SmartportView, Seq<(u16, u8)>, u8) {
    let b = bus.bus;
    let len = s.data.len();
    let tb = total_blocks(len);
    let with_xy = SmartportView { dispatch_x: (tb % 256) as u8, dispatch_y: ((tb / 256) % 256) as u8, ..s };
    if address == 0 && len >= 512 {
        (s, boot_writes(s.data), 0x80)
    } else if address == 1 {
        let command = bus_read(b, MLI_COMMAND);
        let buffer = bus_read_u16(b, MLI_BUFFER);
        let block_offset = 512 * bus_read_u16(b, MLI_BLOCK);
        if command == 1 {
            if len >= block_offset + 512 {
                (with_xy, block_writes(s.data, buffer, block_offset), 0)
            } else {
                (with_xy, Seq::empty(), 0)
            }
        } else if command == 0 {
            (with_xy, Seq::empty(), 0)
        } else if command == 2 {
            if len >= block_offset + 512 {
                (SmartportView {
                    data: Seq::new(len, |i: int| if i < 512 { bus_read(b, wrap16(buffer + i)) } else { s.data[i] }),
                    ..s
                }, Seq::empty(), 0)
            } else {
                (s, Seq::empty(), 0)
            }
        } else if command == 3 {
            (SmartportView { data: Seq::new(len, |i: int| 0u8), ..s }, Seq::empty(), 0)
        } else {
            (s, Seq::empty(), MLI_IO_ERROR)
        }
    } else if address == 2 {
        (s, Seq::empty(), s.dispatch_x)
    } else if address == 3 {
        (s, Seq::empty(), s.dispatch_y)
    } else if address == 4 {
        let pl = s.smartport_args.param_list;
        if s.smartport_args.command == 0 {
            let param_count = bus_read(b, pl);
            let unit_number = bus_read(b, wrap_add16(pl, 1));
            let sp = bus_read_u16(b, wrap_add16(pl, 2));
            let status_code = bus_read(b, wrap_add16(pl, 4));
            if param_count != 3 {
                (s, Seq::empty(), SMARTPORT_ERR_BAD_PARAM_COUNT)
            } else if unit_number == 0 {
                if status_code != 0 {
                    (s, Seq::empty(), SMARTPORT_ERR_BAD_STATUS_CODE)
                } else {
                    (SmartportView { dispatch_x: 8, dispatch_y: 0, ..s }, port_status_writes(sp, len > 0), 0)
                }
            } else if unit_number == 1 {
                if status_code == 3 {
                    (SmartportView { dispatch_x: 25, dispatch_y: 0, ..s }, device_status_writes(sp, len / 512), 0)
                } else {
                    (s, Seq::empty(), SMARTPORT_ERR_BAD_STATUS_CODE)
                }
            } else {
                (s, Seq::empty(), SMARTPORT_ERR_BAD_COMMAND)
            }
        } else {
            (s, Seq::empty(), SMARTPORT_ERR_BAD_COMMAND)
        }
    } else {
        (s, Seq::empty(), 0)
    }
}

/// What a write of `value` to device register `address` does: register 5 sets up a
/// Smartport call from the caller's return address on the stack (page 1 at the value
/// written): the command byte after the JSR and the parameter list address after it.
pub open spec fn smartport_write_spec(s: SmartportView, c: CpuView, address: usize, value: u8) -> SmartportView {
    if address == 5 {
        let b = c.bus;
        let lo = bus_read(b, (0x100 + (value + 1) % 256) as u16);
        let hi = bus_read(b, (0x100 + (value + 2) % 256) as u16);
        let addr = wrap_add16((hi * 256 + lo) as u16, 1);
        SmartportView {
            smartport_args: SmartportArgs { command: bus_read(b, addr), param_list: bus_read_u16(b, wrap_add16(addr, 1)) },
            ..s
        }
    } else {
        s
    }
}

/// The address `k` bytes after `start`, wrapping.
pub open spec fn run_addr(start: u16, k: int) -> u16 {
    wrap16(start + k)
}

/// Whether the bytes of `count` consecutive addresses from `start` (wrapping) are mapped.
pub open spec fn run_mapped(b: Seq<SlaveView>, start: u16, count: int) -> bool {
    forall|k: int| 0 <= k < count ==> #[trigger] mapped(b, run_addr(start, k))
}

/// The port status is written to the 8 bytes from `sp`.
proof fn lemma_port_status_addrs(sp: u16, has_data: bool)
    ensures
        port_status_writes(sp, has_data).len() == 8,
        forall|k: int| 0 <= k < 8 ==> #[trigger] port_status_writes(sp, has_data)[k].0 == run_addr(sp, k),
{
    let w = port_status_writes(sp, has_data);
    assert forall|k: int| 0 <= k < 8 implies #[trigger] w[k].0 == run_addr(sp, k) by {
        if k == 0 {
        } else if k == 1 {
        } else if k == 2 {
        } else if k == 3 {
        } else if k == 4 {
        } else if k == 5 {
        } else if k == 6 {
        } else {
        }
    }
}

/// The device status is written to the 25 bytes from `sp`.
proof fn lemma_device_status_addrs(sp: u16, blocks: nat)
    ensures
        device_status_writes(sp, blocks).len() == 25,
        forall|k: int| 0 <= k < 25 ==> #[trigger] device_status_writes(sp, blocks)[k].0 == run_addr(sp, k),
{
    let w = device_status_writes(sp, blocks);
    assert forall|k: int| 0 <= k < 25 implies #[trigger] w[k].0 == run_addr(sp, k) by {
        if k == 0 {
        } else if k == 1 {
        } else if k == 2 {
        } else if k == 3 {
        } else if k == 4 {
        } else if k < 21 {
        } else if k == 21 {
        } else if k == 22 {
        } else if k == 23 {
        } else {
        }
    }
}

/// Whether a read of device register `address` reaches mapped bytes only: the boot
/// block's page, the ProDOS parameters and the block buffer, or the Smartport parameter
/// list and the status buffer it names.
pub open spec fn smartport_read_mapped(s: SmartportView, c: CpuView, address: usize) -> bool {
    let b = c.bus;
    let len = s.data.len();
    if address == 0 && len >= 512 {
        run_mapped(b, 0x800, 512)
    } else if address == 1 {
        let command = bus_read(b, MLI_COMMAND);
        let buffer = bus_read_u16(b, MLI_BUFFER);
        let block_offset = 512 * bus_read_u16(b, MLI_BLOCK);
        &&& mapped(b, MLI_COMMAND)
        &&& (command == 1 || command == 2) ==> {
            &&& word_mapped(b, MLI_BUFFER)
            &&& word_mapped(b, MLI_BLOCK)
            &&& len >= block_offset + 512 ==> run_mapped(b, buffer, 512)
        }
    } else if address == 4 && s.smartport_args.command == 0 {
        let pl = s.smartport_args.param_list;
        let param_count = bus_read(b, pl);
        let unit_number = bus_read(b, wrap_add16(pl, 1));
        let sp = bus_read_u16(b, wrap_add16(pl, 2));
        let status_code = bus_read(b, wrap_add16(pl, 4));
        &&& run_mapped(b, pl, 5)
        &&& param_count == 3 && unit_number == 0 && status_code == 0 ==> run_mapped(b, sp, 8)
        &&& param_count == 3 && unit_number == 1 && status_code == 3 ==> run_mapped(b, sp, 25)
    } else {
        true
    }
}

/// Whether a write to device register `address` reaches mapped bytes only: the caller's
/// return address on the stack page, and the command byte and parameter list address
/// after the JSR.
pub open spec fn smartport_write_mapped(c: CpuView, address: usize, value: u8) -> bool {
    address == 5 ==> {
        let b = c.bus;
        let lo_at = (0x100 + (value + 1) % 256) as u16;
        let hi_at = (0x100 + (value + 2) % 256) as u16;
        let addr = wrap_add16((bus_read(b, hi_at) * 256 + bus_read(b, lo_at)) as u16, 1);
        &&& mapped(b, lo_at)
        &&& mapped(b, hi_at)
        &&& run_mapped(b, addr, 3)
    }
}

/// The Smartport hard disk card.
pub struct Smartport {
    rom: MemoryBank,
    data: Vec<u8>,
    dispatch_x: u8,
    dispatch_y: u8,
    smartport_args: SmartportArgs,
}

impl View for Smartport {
    type V = SmartportView;

    closed spec fn view(&self) -> SmartportView {
        SmartportView {
            data: self.data@,
            dispatch_x: self.dispatch_x,
            dispatch_y: self.dispatch_y,
            smartport_args: self.smartport_args,
        }
    }
}

impl Smartport {
    /// The card's ROM.
    pub closed spec fn rom_spec(&self) -> Seq<u8> {
        self.rom@
    }

    /// A card with the given ROM and no disk.
    pub fn new(rom: &[u8]) -> (s: Smartport)
        ensures
            s@ == (SmartportView {
                data: Seq::empty(),
                dispatch_x: 0,
                dispatch_y: 0,
                smartport_args: SmartportArgs { command: 0, param_list: 0 },
            }),
            s.rom_spec() == rom@,
    {
        Smartport {
            rom: MemoryBank::new_with_data(rom, true),
            data: Vec::new(),
            dispatch_x: 0,
            dispatch_y: 0,
            smartport_args: SmartportArgs { command: 0, param_list: 0 },
        }
    }

    /// Adds the bytes of a disk image after what the card holds.
    pub fn attach(&mut self, image: &[u8]) -> (r: Result<(), Error>)
        ensures
            r is Ok,
            final(self)@ == (SmartportView { data: old(self)@.data + image@, ..old(self)@ }),
            final(self).rom_spec() == old(self).rom_spec(),
    {
        let mut i: usize = 0;
        let ghost start = self.data@;
        while i < image.len()
            invariant
                i <= image@.len(),
                self@ == (SmartportView { data: self.data@, ..old(self)@ }),
                self.rom_spec() == old(self).rom_spec(),
                self.data@ == start + image@.take(i as int),
            decreases image@.len() - i,
        {
            self.data.push(image[i]);
            assert(image@.take(i + 1) =~= image@.take(i as int).push(image@[i as int]));
            i += 1;
        }
        assert(image@.take(i as int) =~= image@);
        Ok(())
    }

    /// Removes the disk.
    pub fn detach(&mut self)
        ensures
            final(self)@ == (SmartportView { data: Seq::empty(), ..old(self)@ }),
            final(self).rom_spec() == old(self).rom_spec(),
    {
        self.data.clear();
    }

    /// Byte `address` of the slot ROM; byte 0xfe tells ProDOS whether a disk is there
    /// (0xd3: removable, read-only, one volume).
    pub fn read_rom(&self, address: usize) -> (r: Result<u8, Error>)
        ensures
            address == 0xfe ==> r == Ok::<u8, Error>(if self@.data.len() > 0 { 0xd3u8 } else { 0u8 }),
            address != 0xfe && address < self.rom_spec().len() ==> r == Ok::<u8, Error>(self.rom_spec()[address as int]),
            address != 0xfe && address >= self.rom_spec().len() ==> r == Err::<u8, Error>(
                Error::MemoryFault { address, size: self.rom_spec().len() as usize },
            ),
    {
        if address == 0xfe {
            if self.data.len() > 0 {
                return Ok(0xd3);
            } else {
                return Ok(0);
            }
        }
        self.rom.read(address)
    }

    /// A read of device register `address`: 0 boots (copies block 0 to 0x800), 1 makes a
    /// ProDOS dispatch call (status, read, write or format, its parameters at 0x42-0x47),
    /// 2 and 3 give the X and Y results, 4 makes the Smartport call set up through
    /// register 5.
    pub fn device_read(&mut self, address: usize, cpu: &mut Mos6502) -> (r: Result<u8, Error>)
        requires
            smartport_read_mapped(old(self)@, old(cpu)@, address),
        ensures
            ({
                let (s, writes, v) = smartport_read_spec(old(self)@, old(cpu)@, address);
                &&& final(self)@ == s
                &&& final(cpu)@ == with_writes(old(cpu)@, writes)
                &&& r == Ok::<u8, Error>(v)
            }),
            same_map(old(cpu)@.bus, final(cpu)@.bus),
            final(cpu).clock_rate() == old(cpu).clock_rate(),
            final(self).rom_spec() == old(self).rom_spec(),
    {
        let len = self.data.len();
        if address == 0 && len >= 512 {
            let mut writes: Vec<(u16, u8)> = Vec::new();
            let mut x: usize = 0;
            while x < 512
                invariant
                    x <= 512,
                    len == self.data@.len(),
                    len >= 512,
                    writes@ == boot_writes(self.data@).take(x as int),
                decreases 512 - x,
            {
                writes.push(((0x800 + x) as u16, self.data[x]));
                assert(writes@ =~= boot_writes(self.data@).take(x + 1));
                x += 1;
            }
            assert(boot_writes(self.data@).take(512) =~= boot_writes(self.data@));
            assert forall|k: int| 0 <= k < writes@.len() implies mapped(cpu@.bus, #[trigger] writes@[k].0) by {
                assert(mapped(cpu@.bus, run_addr(0x800, k)));
            }
            cpu.write_bus_all(writes.as_slice());
            return Ok(0x80);
        } else if address == 1 {
            let command = cpu.read_bus(MLI_COMMAND);
            let mut tb = len / 512;
            if tb == 65536 {
                tb = 65535;
            }
            if command == 1 {
                let buffer = cpu.read_bus_u16(MLI_BUFFER);
                let block = cpu.read_bus_u16(MLI_BLOCK);
                self.dispatch_x = (tb % 256) as u8;
                self.dispatch_y = ((tb / 256) % 256) as u8;
                let block_offset = 512 * block as usize;
                if len >= block_offset + 512 {
                    let mut writes: Vec<(u16, u8)> = Vec::new();
                    let mut x: usize = 0;
                    while x < 512
                        invariant
                            x <= 512,
                            len == self.data@.len(),
                            len >= block_offset + 512,
                            writes@ == block_writes(self.data@, buffer, block_offset as int).take(x as int),
                        decreases 512 - x,
                    {
                        writes.push((buffer.wrapping_add(x as u16), self.data[block_offset + x]));
                        assert(writes@ =~= block_writes(self.data@, buffer, block_offset as int).take(x + 1));
                        x += 1;
                    }
                    assert(block_writes(self.data@, buffer, block_offset as int).take(512) =~= block_writes(
                        self.data@,
                        buffer,
                        block_offset as int,
                    ));
                    assert forall|k: int| 0 <= k < writes@.len() implies mapped(cpu@.bus, #[trigger] writes@[k].0) by {
                        assert(mapped(cpu@.bus, run_addr(buffer, k)));
                    }
                    cpu.write_bus_all(writes.as_slice());
                }
                return Ok(0);
            } else if command == 0 {
                self.dispatch_x = (tb % 256) as u8;
                self.dispatch_y = ((tb / 256) % 256) as u8;
                return Ok(0);
            } else if command == 2 {
                let buffer = cpu.read_bus_u16(MLI_BUFFER);
                let block = cpu.read_bus_u16(MLI_BLOCK);
                let block_offset = 512 * block as usize;
                if len >= block_offset + 512 {
                    let ghost old_data = self.data@;
                    let mut x: usize = 0;
                    while x < 512
                        invariant
                            x <= 512,
                            len == self.data@.len(),
                            len >= 512,
                            len == old_data.len(),
                            cpu@ == old(cpu)@,
                            self@ == (SmartportView { data: self.data@, ..old(self)@ }),
                            self.rom_spec() == old(self).rom_spec(),
                            run_mapped(cpu@.bus, buffer, 512),
                            self.data@ == Seq::new(len as nat, |i: int| if i < x { bus_read(cpu@.bus, wrap16(buffer + i)) } else { old_data[i] }),
                        decreases 512 - x,
                    {
                        assert(mapped(cpu@.bus, run_addr(buffer, x as int)));
                        let v = cpu.read_bus(buffer.wrapping_add(x as u16));
                        self.data.set(x, v);
                        assert(self.data@ =~= Seq::new(len as nat, |i: int| if i < x + 1 { bus_read(cpu@.bus, wrap16(buffer + i)) } else { old_data[i] }));
                        x += 1;
                    }
                }
                return Ok(0);
            } else if command == 3 {
                let mut i: usize = 0;
                while i < len
                    invariant
                        i <= len,
                        len == self.data@.len(),
                        self@ == (SmartportView { data: self.data@, ..old(self)@ }),
                        self.rom_spec() == old(self).rom_spec(),
                        forall|k: int| 0 <= k < i ==> self.data@[k] == 0,
                    decreases len - i,
                {
                    self.data.set(i, 0);
                    i += 1;
                }
                assert(self.data@ =~= Seq::new(len as nat, |k: int| 0u8));
                return Ok(0);
            }
            return Ok(MLI_IO_ERROR);
        } else if address == 2 {
            return Ok(self.dispatch_x);
        } else if address == 3 {
            return Ok(self.dispatch_y);
        } else if address == 4 {
            if self.smartport_args.command == 0 {
                let pl = self.smartport_args.param_list;
                assert(mapped(cpu@.bus, run_addr(pl, 0)) && mapped(cpu@.bus, run_addr(pl, 1)) && mapped(cpu@.bus, run_addr(pl, 2))
                    && mapped(cpu@.bus, run_addr(pl, 3)) && mapped(cpu@.bus, run_addr(pl, 4)));
                let param_count = cpu.read_bus(pl);
                let unit_number = cpu.read_bus(pl.wrapping_add(1));
                let sp = cpu.read_bus_u16(pl.wrapping_add(2));
                let status_code = cpu.read_bus(pl.wrapping_add(4));
                if param_count != 3 {
                    return Ok(SMARTPORT_ERR_BAD_PARAM_COUNT);
                }
                if unit_number == 0 {
                    if status_code != 0 {
                        return Ok(SMARTPORT_ERR_BAD_STATUS_CODE);
                    }
                    let has: u8 = if len > 0 { 1 } else { 0 };
                    let writes = [
                        (sp, has),
                        (sp.wrapping_add(1), 0x40u8),
                        (sp.wrapping_add(2), 0u8),
                        (sp.wrapping_add(3), 0u8),
                        (sp.wrapping_add(4), 0u8),
                        (sp.wrapping_add(5), 0u8),
                        (sp.wrapping_add(6), 0u8),
                        (sp.wrapping_add(7), 0u8),
                    ];
                    assert(writes@ =~= port_status_writes(sp, len > 0));
                    proof {
                        lemma_port_status_addrs(sp, len > 0);
                        assert forall|k: int| 0 <= k < writes@.len() implies mapped(cpu@.bus, #[trigger] writes@[k].0) by {
                            assert(mapped(cpu@.bus, run_addr(sp, k)));
                        }
                    }
                    cpu.write_bus_all(&writes);
                    self.dispatch_y = 0;
                    self.dispatch_x = 8;
                    return Ok(0);
                } else if unit_number == 1 {
                    if status_code == 3 {
                        let blocks = len / 512;
                        let mut writes: Vec<(u16, u8)> = Vec::new();
                        writes.push((sp, 0xfc));
                        writes.push((sp.wrapping_add(1), (blocks % 256) as u8));
                        writes.push((sp.wrapping_add(2), ((blocks / 256) % 256) as u8));
                        writes.push((sp.wrapping_add(3), ((blocks / 65536) % 256) as u8));
                        writes.push((sp.wrapping_add(4), 16));
                        let ghost head = writes@;
                        let mut k: usize = 0;
                        while k < 16
                            invariant
                                k <= 16,
                                writes@ == head + Seq::new(k as nat, |j: int| (wrap_add16(sp, 5 + j), DEVICE_NAME@[j])),
                            decreases 16 - k,
                        {
                            writes.push((sp.wrapping_add(5 + k as u16), DEVICE_NAME[k]));
                            assert(writes@ =~= head + Seq::new((k + 1) as nat, |j: int| (wrap_add16(sp, 5 + j), DEVICE_NAME@[j])));
                            k += 1;
                        }
                        writes.push((sp.wrapping_add(21), 3));
                        writes.push((sp.wrapping_add(22), 0));
                        writes.push((sp.wrapping_add(23), 1));
                        writes.push((sp.wrapping_add(24), 0));
                        assert(writes@ =~= device_status_writes(sp, (len / 512) as nat));
                        proof {
                            lemma_device_status_addrs(sp, (len / 512) as nat);
                            assert forall|k: int| 0 <= k < writes@.len() implies mapped(cpu@.bus, #[trigger] writes@[k].0) by {
                                assert(mapped(cpu@.bus, run_addr(sp, k)));
                            }
                        }
                        cpu.write_bus_all(writes.as_slice());
                        self.dispatch_y = 0;
                        self.dispatch_x = 25;
                        return Ok(0);
                    } else {
                        return Ok(SMARTPORT_ERR_BAD_STATUS_CODE);
                    }
                }
            }
            return Ok(SMARTPORT_ERR_BAD_COMMAND);
        }
        Ok(0)
    }

    /// A write to device register `address`: register 5 sets up a Smartport call from the
    /// caller's return address on the stack (page 1 at the value written): the command
    /// byte after the JSR and the parameter list address after it.
    pub fn device_write(&mut self, address: usize, value: u8, cpu: &Mos6502) -> (r: Result<(), Error>)
        requires
            smartport_write_mapped(cpu@, address, value),
        ensures
            r is Ok,
            final(self).rom_spec() == old(self).rom_spec(),
            final(self)@ == smartport_write_spec(old(self)@, cpu@, address, value),
    {
        if address == 5 {
            let lo = cpu.read_bus(0x100 + ((value as u16 + 1) % 256));
            let hi = cpu.read_bus(0x100 + ((value as u16 + 2) % 256));
            let addr = ((hi as u16) * 256 + lo as u16).wrapping_add(1);
            assert(mapped(cpu@.bus, run_addr(addr, 0)) && mapped(cpu@.bus, run_addr(addr, 1)) && mapped(cpu@.bus, run_addr(addr, 2)));
            self.smartport_args = SmartportArgs { command: cpu.read_bus(addr), param_list: cpu.read_bus_u16(addr.wrapping_add(1)) };
        }
        Ok(())
    }

    /// Clears the call results and arguments.
    pub fn reset(&mut self)
        ensures
            final(self)@ == (SmartportView {
                dispatch_x: 0,
                dispatch_y: 0,
                smartport_args: SmartportArgs { command: 0, param_list: 0 },
                ..old(self)@
            }),
            final(self).rom_spec() == old(self).rom_spec(),
    {
        self.dispatch_x = 0;
        self.dispatch_y = 0;
        self.smartport_args = SmartportArgs { command: 0, param_list: 0 };
    }
}

} // verus!
