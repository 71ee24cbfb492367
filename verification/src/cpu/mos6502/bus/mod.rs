use vstd::prelude::*;

use crate::cpu::mos6502::bus::memory::MemoryBank;
use crate::utils::text::{hex_padded, push_bytes, push_hex};

pub mod memory;

verus! {

/// What the bus knows of one connected bank: the address range it answers, the address
/// subtracted from a bus address to index the bank, its bytes and whether it is ROM.
pub struct SlaveView {
    pub start_address: u16,
    pub end_address: u16,
    pub start_address_remap: u16,
    pub data: Seq<u8>,
    pub read_only: bool,
}

/// Whether `s` answers `address`.
pub open spec fn covers(s: SlaveView, address: u16) -> bool {
    s.start_address <= address && address <= s.end_address
}

/// The index of the first slave, from index `i` on, that answers `address`; -1 if none does.
pub open spec fn first_slave_from(slaves: Seq<SlaveView>, address: u16, i: int) -> int
    decreases slaves.len() - i,
{
    if i < 0 || i >= slaves.len() {
        -1
    } else if covers(slaves[i], address) {
        i
    } else {
        first_slave_from(slaves, address, i + 1)
    }
}

/// The index of the slave that answers `address` (the first connected one that covers it).
pub closed spec fn slave_index(slaves: Seq<SlaveView>, address: u16) -> int {
    first_slave_from(slaves, address, 0)
}

/// Whether an access to `address` reaches a byte of some bank.
pub closed spec fn mapped(slaves: Seq<SlaveView>, address: u16) -> bool {
    let i = slave_index(slaves, address);
    &&& 0 <= i < slaves.len()
    &&& slaves[i].start_address_remap <= address
    &&& (address - slaves[i].start_address_remap) < slaves[i].data.len()
}

/// Every address of the 64K space is mapped.
pub open spec fn fully_mapped(slaves: Seq<SlaveView>) -> bool {
    forall|a: u16| #[trigger] mapped(slaves, a)
}

/// The byte a read of `address` yields.
pub closed spec fn bus_read(slaves: Seq<SlaveView>, address: u16) -> u8 {
    let i = slave_index(slaves, address);
    slaves[i].data[address - slaves[i].start_address_remap]
}

/// The bus after a write of `data` to `address`: the byte of the answering bank changes,
/// unless the bank is ROM.
pub closed spec fn bus_write(slaves: Seq<SlaveView>, address: u16, data: u8) -> Seq<SlaveView> {
    let i = slave_index(slaves, address);
    if slaves[i].read_only {
        slaves
    } else {
        slaves.update(
            i,
            SlaveView {
                data: slaves[i].data.update(address - slaves[i].start_address_remap, data),
                ..slaves[i]
            },
        )
    }
}

/// Whether a write to `address` changes memory (the answering bank is RAM).
pub closed spec fn writable(slaves: Seq<SlaveView>, address: u16) -> bool {
    !slaves[slave_index(slaves, address)].read_only
}

/// The little-endian 16-bit word at `address`, the high byte read from `address + 1` (wrapping).
pub open spec fn bus_read_u16(slaves: Seq<SlaveView>, address: u16) -> u16 {
    (bus_read(slaves, wrap_add16(address, 1)) as int * 256 + bus_read(slaves, address) as int) as u16
}

/// The bus after a little-endian 16-bit write: low byte at `address`, then high byte at `address + 1`.
pub open spec fn bus_write_u16(slaves: Seq<SlaveView>, address: u16, data: u16) -> Seq<SlaveView> {
    bus_write(bus_write(slaves, address, (data % 256) as u8), wrap_add16(address, 1), (data / 256) as u8)
}

/// 16-bit wrapping addition of an offset between -65536 and 65536.
pub open spec fn wrap_add16(a: u16, b: int) -> u16 {
    wrap16(a as int + b)
}

/// A value between -65536 and 131071 brought into 0..65535 by adding or subtracting 65536.
pub open spec fn wrap16(x: int) -> u16 {
    if x < 0 {
        (x + 65536) as u16
    } else if x >= 65536 {
        (x - 65536) as u16
    } else {
        x as u16
    }
}

/// A value between -256 and 511 brought into 0..255 by adding or subtracting 256.
pub open spec fn wrap8(x: int) -> u8 {
    if x < 0 {
        (x + 256) as u8
    } else if x >= 256 {
        (x - 256) as u8
    } else {
        x as u8
    }
}

/// Two bus states with the same ranges and bank sizes.
pub closed spec fn same_shape(a: Seq<SlaveView>, b: Seq<SlaveView>) -> bool {
    &&& a.len() == b.len()
    &&& forall|i: int|
        0 <= i < a.len() ==> {
            &&& (#[trigger] a[i]).start_address == b[i].start_address
            &&& a[i].end_address == b[i].end_address
            &&& a[i].start_address_remap == b[i].start_address_remap
            &&& a[i].read_only == b[i].read_only
            &&& a[i].data.len() == b[i].data.len()
        }
}

pub proof fn lemma_first_slave_from_range(slaves: Seq<SlaveView>, address: u16, i: int)
    requires
        0 <= i,
    ensures
        first_slave_from(slaves, address, i) == -1 || (i <= first_slave_from(slaves, address, i)
            < slaves.len() && covers(slaves[first_slave_from(slaves, address, i)], address)),
        forall|j: int|
            i <= j < slaves.len() && j < first_slave_from(slaves, address, i) ==> !covers(
                #[trigger] slaves[j],
                address,
            ),
        first_slave_from(slaves, address, i) == -1 ==> forall|j: int|
            i <= j < slaves.len() ==> !covers(#[trigger] slaves[j], address),
    decreases slaves.len() - i,
{
    if i < slaves.len() && !covers(slaves[i], address) {
        lemma_first_slave_from_range(slaves, address, i + 1);
    }
}

/// The slave index depends only on the address ranges.
pub proof fn lemma_same_shape_index(a: Seq<SlaveView>, b: Seq<SlaveView>, address: u16, i: int)
    requires
        same_shape(a, b),
        0 <= i,
    ensures
        first_slave_from(a, address, i) == first_slave_from(b, address, i),
    decreases a.len() - i,
{
    if i < a.len() {
        assert(a[i].start_address == b[i].start_address);
        lemma_same_shape_index(a, b, address, i + 1);
    }
}

/// A mapped write keeps the shape of the bus.
pub proof fn lemma_write_same_shape(slaves: Seq<SlaveView>, address: u16, data: u8)
    requires
        mapped(slaves, address),
    ensures
        same_shape(slaves, bus_write(slaves, address, data)),
        same_shape(bus_write(slaves, address, data), slaves),
{
}

/// The bank that answers an address is the first connected one whose range covers it: the
/// address is mapped where it falls inside that bank's bytes, and then reads that byte.
pub proof fn lemma_answering_bank(slaves: Seq<SlaveView>, address: u16, i: int)
    requires
        0 <= i < slaves.len(),
        covers(slaves[i], address),
        forall|j: int| 0 <= j < i ==> !covers(#[trigger] slaves[j], address),
    ensures
        slave_index(slaves, address) == i,
        mapped(slaves, address) == (slaves[i].start_address_remap <= address && address
            - slaves[i].start_address_remap < slaves[i].data.len()),
        mapped(slaves, address) ==> bus_read(slaves, address) == slaves[i].data[address
            - slaves[i].start_address_remap],
        mapped(slaves, address) ==> writable(slaves, address) == !slaves[i].read_only,
{
    lemma_first_slave_from_range(slaves, address, 0);
    let r = first_slave_from(slaves, address, 0);
    assert(r != -1);
    if r < i {
        assert(!covers(slaves[r], address));
    }
    if r > i {
        assert(!covers(slaves[i], address));
    }
}

/// Two bus states that map the same addresses.
pub open spec fn same_map(a: Seq<SlaveView>, b: Seq<SlaveView>) -> bool {
    forall|x: u16| #![trigger mapped(a, x)] #![trigger mapped(b, x)] mapped(a, x) == mapped(b, x)
}

/// Both bytes of the little-endian word at `address` are mapped.
pub open spec fn word_mapped(slaves: Seq<SlaveView>, address: u16) -> bool {
    mapped(slaves, address) && mapped(slaves, wrap_add16(address, 1))
}

/// A mapped write maps the same addresses as before.
pub proof fn lemma_write_same_map(slaves: Seq<SlaveView>, address: u16, data: u8)
    requires
        mapped(slaves, address),
    ensures
        same_map(slaves, bus_write(slaves, address, data)),
{
    lemma_write_same_shape(slaves, address, data);
    lemma_same_shape_mapped(slaves, bus_write(slaves, address, data));
}

/// A write does not change which addresses are RAM.
pub proof fn lemma_writable_after_write(slaves: Seq<SlaveView>, address: u16, data: u8, other: u16)
    requires
        mapped(slaves, address),
        mapped(slaves, other),
    ensures
        writable(bus_write(slaves, address, data), other) == writable(slaves, other),
{
    lemma_write_same_shape(slaves, address, data);
    lemma_same_shape_mapped(slaves, bus_write(slaves, address, data));
}

/// Mapping depends only on the shape of the bus.
pub proof fn lemma_same_shape_mapped(a: Seq<SlaveView>, b: Seq<SlaveView>)
    requires
        same_shape(a, b),
    ensures
        forall|x: u16| mapped(a, x) == #[trigger] mapped(b, x),
        forall|x: u16| slave_index(a, x) == #[trigger] slave_index(b, x),
{
    assert forall|x: u16| slave_index(a, x) == #[trigger] slave_index(b, x) by {
        lemma_same_shape_index(a, b, x, 0);
    }
}

/// A read after a write: the written address reads back the data when its bank is RAM;
/// every other mapped address reads what it read before.
pub proof fn lemma_read_after_write(slaves: Seq<SlaveView>, address: u16, data: u8, other: u16)
    requires
        mapped(slaves, address),
        mapped(slaves, other),
    ensures
        bus_read(bus_write(slaves, address, data), other) == (if other == address && writable(
            slaves,
            address,
        ) {
            data
        } else {
            bus_read(slaves, other)
        }),
        mapped(bus_write(slaves, address, data), other),
{
    lemma_write_same_shape(slaves, address, data);
    lemma_same_shape_mapped(slaves, bus_write(slaves, address, data));
}

/// What the bus knows of a bank connected at `start_address` for `size` bytes with the
/// given remap: the addresses taken modulo 0x10000.
pub open spec fn connection_view(start_address: usize, start_address_remap: usize, size: usize, data: Seq<u8>, read_only: bool) -> SlaveView {
    SlaveView {
        start_address: (start_address % 65536) as u16,
        end_address: ((start_address + size - 1) % 65536) as u16,
        start_address_remap: (start_address_remap % 65536) as u16,
        data,
        read_only,
    }
}

/// A bank with every byte zeroed.
pub open spec fn cleared_slave(s: SlaveView) -> SlaveView {
    SlaveView { data: Seq::new(s.data.len(), |k: int| 0u8), ..s }
}

/// Where a slave is connected on the bus.
struct BusSlave {
    slave: MemoryBank,
    start_address: u16,
    end_address: u16,
    start_address_remap: u16,
}

/// A 16-bit address bus that routes each access to the first connected bank whose range
/// holds the address.
pub struct Bus {
    slaves: Vec<BusSlave>,
}

spec fn slave_view_of(s: BusSlave) -> SlaveView {
    SlaveView {
        start_address: s.start_address,
        end_address: s.end_address,
        start_address_remap: s.start_address_remap,
        data: s.slave@,
        read_only: s.slave.is_read_only(),
    }
}

impl View for Bus {
    type V = Seq<SlaveView>;

    closed spec fn view(&self) -> Seq<SlaveView> {
        self.slaves@.map_values(|s: BusSlave| slave_view_of(s))
    }
}

impl Bus {
    /// A bus with nothing connected.
    pub fn new() -> (bus: Bus)
        ensures
            bus@ == Seq::<SlaveView>::empty(),
    {
        let bus = Bus { slaves: Vec::new() };
        assert(bus@ =~= Seq::<SlaveView>::empty());
        bus
    }

    /// The index of the slave that answers `address`, if any.
    fn find_slave(&self, address: u16) -> (r: Option<usize>)
        ensures
            r is Some <==> slave_index(self@, address) >= 0,
            r matches Some(i) ==> i == slave_index(self@, address) && i < self.slaves@.len()
                && self@.len() == self.slaves@.len(),
    {
        let n = self.slaves.len();
        let mut i: usize = 0;
        proof {
            lemma_first_slave_from_range(self@, address, 0);
        }
        while i < n
            invariant
                i <= n,
                n == self.slaves@.len(),
                n == self@.len(),
                first_slave_from(self@, address, 0) == first_slave_from(self@, address, i as int),
            decreases n - i,
        {
            let s = &self.slaves[i];
            assert(self@[i as int] == slave_view_of(self.slaves@[i as int]));
            if address >= s.start_address && address <= s.end_address {
                return Some(i);
            }
            i += 1;
        }
        None
    }

    /// Connects `slave` ahead of every connected one: it answers the addresses from
    /// `start_address` through `start_address + size - 1` (each taken modulo 0x10000),
    /// an access reaching it at the bus address minus `start_address_remap`.
    pub fn connect_map_insert_first(&mut self, start_address: usize, start_address_remap: usize, size: usize, slave: MemoryBank)
        requires
            1 <= start_address + size <= usize::MAX,
        ensures
            final(self)@ == old(self)@.insert(0, connection_view(start_address, start_address_remap, size, slave@, slave.is_read_only())),
    {
        let ghost sv = connection_view(start_address, start_address_remap, size, slave@, slave.is_read_only());
        let bs = BusSlave {
            slave,
            start_address: (start_address % 65536) as u16,
            start_address_remap: (start_address_remap % 65536) as u16,
            end_address: ((start_address + size - 1) % 65536) as u16,
        };
        assert(slave_view_of(bs) == sv);
        self.slaves.insert(0, bs);
        assert(self@ =~= old(self)@.insert(0, sv));
    }

    /// Connects `slave` after every connected one: it answers the addresses from
    /// `start_address` through `start_address + size - 1` (each taken modulo 0x10000) that no
    /// earlier slave answers, an access reaching it at the bus address minus
    /// `start_address_remap`.
    pub fn connect_map(&mut self, start_address: usize, start_address_remap: usize, size: usize, slave: MemoryBank)
        requires
            1 <= start_address + size <= usize::MAX,
        ensures
            final(self)@ == old(self)@.push(connection_view(start_address, start_address_remap, size, slave@, slave.is_read_only())),
    {
        let ghost sv = connection_view(start_address, start_address_remap, size, slave@, slave.is_read_only());
        let bs = BusSlave {
            slave,
            start_address: (start_address % 65536) as u16,
            start_address_remap: (start_address_remap % 65536) as u16,
            end_address: ((start_address + size - 1) % 65536) as u16,
        };
        assert(slave_view_of(bs) == sv);
        self.slaves.push(bs);
        assert(self@ =~= old(self)@.push(sv));
    }

    /// Connects `slave` after every connected one at `start_address`, an access reaching it
    /// at the offset from `start_address`.
    pub fn connect(&mut self, start_address: usize, size: usize, slave: MemoryBank)
        requires
            1 <= start_address + size <= usize::MAX,
        ensures
            final(self)@ == old(self)@.push(connection_view(start_address, start_address, size, slave@, slave.is_read_only())),
    {
        self.connect_map(start_address, start_address, size, slave)
    }

    /// The bank connected `i`-th.
    pub fn bank(&self, i: usize) -> (r: &MemoryBank)
        requires
            i < self@.len(),
        ensures
            r@ == self@[i as int].data,
            r.is_read_only() == self@[i as int].read_only,
    {
        assert(self@[i as int] == slave_view_of(self.slaves@[i as int]));
        &self.slaves[i].slave
    }

    /// Zeroes the bank connected `i`-th (a ROM bank is zeroed too).
    pub fn clear_bank(&mut self, i: usize)
        requires
            i < old(self)@.len(),
        ensures
            same_shape(old(self)@, final(self)@),
            final(self)@ == old(self)@.update(i as int, cleared_slave(old(self)@[i as int])),
    {
        let mut s = self.slaves.remove(i);
        s.slave.clear();
        self.slaves.insert(i, s);
        assert(self.slaves@ =~= old(self).slaves@.update(i as int, s));
        assert forall|k: int| 0 <= k < self@.len() implies #[trigger] self@[k].start_address == old(self)@[k].start_address
            && self@[k].end_address == old(self)@[k].end_address && self@[k].start_address_remap
            == old(self)@[k].start_address_remap && self@[k].read_only == old(self)@[k].read_only
            && self@[k].data.len() == old(self)@[k].data.len() by {
            assert(self@[k] == slave_view_of(self.slaves@[k]));
            assert(old(self)@[k] == slave_view_of(old(self).slaves@[k]));
        }
        assert(same_shape(old(self)@, self@));
        assert(self@ =~= old(self)@.update(i as int, cleared_slave(old(self)@[i as int])));
    }

    /// The number of connected banks.
    pub fn len(&self) -> (r: usize)
        ensures
            r == self@.len(),
    {
        self.slaves.len()
    }

    /// Whether an access to `address` reaches a byte of some bank.
    pub fn maps(&self, address: u16) -> (r: bool)
        ensures
            r == mapped(self@, address),
    {
        match self.find_slave(address) {
            Some(i) => {
                let s = &self.slaves[i];
                assert(self@[i as int] == slave_view_of(self.slaves@[i as int]));
                address >= s.start_address_remap && ((address - s.start_address_remap) as usize)
                    < s.slave.size()
            },
            None => false,
        }
    }

    /// The byte at `address`.
    pub fn read(&self, address: u16) -> (v: u8)
        requires
            mapped(self@, address),
        ensures
            v == bus_read(self@, address),
    {
        let i = self.find_slave(address).unwrap();
        let s = &self.slaves[i];
        assert(self@[i as int] == slave_view_of(self.slaves@[i as int]));
        match s.slave.read((address - s.start_address_remap) as usize) {
            Ok(v) => v,
            Err(_) => 0,
        }
    }

    /// Writes `data` to `address`; a ROM bank ignores it.
    pub fn write(&mut self, address: u16, data: u8)
        requires
            mapped(old(self)@, address),
        ensures
            final(self)@ == bus_write(old(self)@, address, data),
    {
        let i = self.find_slave(address).unwrap();
        assert(self@[i as int] == slave_view_of(self.slaves@[i as int]));
        let ghost before = self@;
        let mut s = self.slaves.remove(i);
        let _ = s.slave.write((address - s.start_address_remap) as usize, data);
        self.slaves.insert(i, s);
        assert(self.slaves@ =~= old(self).slaves@.update(i as int, s));
        assert(self@ =~= bus_write(before, address, data));
    }

    /// The little-endian word at `address`.
    pub fn read_u16(&self, address: u16) -> (v: u16)
        requires
            mapped(self@, address),
            mapped(self@, wrap_add16(address, 1)),
        ensures
            v == bus_read_u16(self@, address),
    {
        let lo = self.read(address);
        let hi = self.read(address.wrapping_add(1));
        let v = ((hi as u16) << 8) | lo as u16;
        assert(v == hi as int * 256 + lo as int) by (bit_vector)
            requires
                v == ((hi as u16) << 8u16) | lo as u16,
        ;
        v
    }

    /// Writes a little-endian word: low byte at `address`, high byte at `address + 1`.
    pub fn write_u16(&mut self, address: u16, data: u16)
        requires
            mapped(old(self)@, address),
            mapped(old(self)@, wrap_add16(address, 1)),
        ensures
            final(self)@ == bus_write_u16(old(self)@, address, data),
    {
        assert(data as u8 == (data % 256) as u8 && (data >> 8) as u8 == (data / 256) as u8)
            by (bit_vector);
        self.write(address, data as u8);
        proof {
            lemma_write_same_shape(old(self)@, address, (data % 256) as u8);
            lemma_same_shape_mapped(old(self)@, self@);
        }
        self.write(address.wrapping_add(1), (data >> 8) as u8);
    }
}

} // verus!

verus! {

/// The line the memory map gives a bank: its address range in hexadecimal and whether it
/// is RAM or ROM.
pub open spec fn slave_line(s: SlaveView) -> Seq<u8> {
    seq![48u8, 120u8] + hex_padded(s.start_address as nat, 4) + seq![45u8, 48u8, 120u8] + hex_padded(s.end_address as nat, 4)
        + seq![32u8, 45u8, 32u8] + (if s.read_only { seq![82u8, 79u8, 77u8] } else { seq![82u8, 65u8, 77u8] })
        + seq![10u8]
}

/// The lines of the banks from the first to the `n`-th.
pub open spec fn slave_lines(slaves: Seq<SlaveView>, n: nat) -> Seq<u8>
    decreases n,
{
    if n == 0 || n > slaves.len() {
        Seq::empty()
    } else {
        slave_lines(slaves, (n - 1) as nat) + slave_line(slaves[n - 1])
    }
}

/// The memory map: a heading, a line for each bank in connection order, and an empty list
/// of interceptors.
pub open spec fn memory_map_text(slaves: Seq<SlaveView>) -> Seq<u8> {
    "\nMemory Map:\n"@.map_values(|c: char| c as u8) + slave_lines(slaves, slaves.len()) + "\nInterceptors:\n\n"@.map_values(
        |c: char| c as u8,
    )
}

impl Bus {
    /// The memory map as text.
    pub fn describe(&self) -> (r: Vec<u8>)
        ensures
            r@ == memory_map_text(self@),
    {
        let mut out: Vec<u8> = Vec::new();
        let head: &[u8] = &[10u8, 77, 101, 109, 111, 114, 121, 32, 77, 97, 112, 58, 10];
        let tail: &[u8] = &[10u8, 73, 110, 116, 101, 114, 99, 101, 112, 116, 111, 114, 115, 58, 10, 10];
        proof {
            reveal_strlit("\nMemory Map:\n");
            reveal_strlit("\nInterceptors:\n\n");
            assert(head@ =~= "\nMemory Map:\n"@.map_values(|c: char| c as u8));
            assert(tail@ =~= "\nInterceptors:\n\n"@.map_values(|c: char| c as u8));
        }
        push_bytes(&mut out, head);
        let ghost start = out@;
        let mut i: usize = 0;
        while i < self.slaves.len()
            invariant
                i <= self.slaves@.len(),
                self.slaves@.len() == self@.len(),
                out@ == start + slave_lines(self@, i as nat),
            decreases self.slaves@.len() - i,
        {
            let s = &self.slaves[i];
            assert(self@[i as int] == slave_view_of(self.slaves@[i as int]));
            let ghost before = out@;
            push_bytes(&mut out, &[48u8, 120u8]);
            push_hex(&mut out, s.start_address as u64, 4);
            push_bytes(&mut out, &[45u8, 48u8, 120u8]);
            push_hex(&mut out, s.end_address as u64, 4);
            push_bytes(&mut out, &[32u8, 45u8, 32u8]);
            if s.slave.read_only() {
                push_bytes(&mut out, &[82u8, 79u8, 77u8]);
            } else {
                push_bytes(&mut out, &[82u8, 65u8, 77u8]);
            }
            push_bytes(&mut out, &[10u8]);
            assert(out@ =~= before + slave_line(self@[i as int]));
            i += 1;
        }
        push_bytes(&mut out, tail);
        out
    }
}

} // verus!
