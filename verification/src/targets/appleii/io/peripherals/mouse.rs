use vstd::prelude::*;

use crate::cpu::mos6502::bus::{bus_read, mapped, same_map};
use crate::cpu::mos6502::bus::memory::MemoryBank;
use crate::cpu::mos6502::host::with_writes;
use crate::cpu::mos6502::{irq_released, CpuView, Mos6502};
use crate::cpu::InterruptSource;
use crate::errors::Error;
use crate::utils::bits::{bit, get_bit, lemma_with_bit, set_bit, with_bit};

verus! {

/// The interrupt source number of the mouse card.
pub const INTERRUPT_SOURCE_MOUSE: InterruptSource = 100;

/// The first scratchpad byte of slot 0; each of the eight bytes of a slot is 0x80 further.
pub const SCRATCH_BASE: usize = 0x478;

/// The state of the mouse card.
pub struct MouseView {
    pub mode: u8,
    pub status: u8,
    pub clamp_min_x: i16,
    pub clamp_min_y: i16,
    pub clamp_max_x: i16,
    pub clamp_max_y: i16,
    pub prev_mouse_x: i16,
    pub prev_mouse_y: i16,
    pub mouse_x: i16,
    pub mouse_y: i16,
    pub prev_button_down: bool,
    pub button_down: bool,
    pub basic_string: Seq<u8>,
}

/// The state after power-on and InitMouse: mode and status clear, clamps 0 to 1023, the
/// mouse at 0,0 with its button up.
pub open spec fn mouse_default(m: MouseView) -> bool {
    &&& m.mode == 0
    &&& m.status == 0
    &&& m.clamp_min_x == 0
    &&& m.clamp_min_y == 0
    &&& m.clamp_max_x == 1023
    &&& m.clamp_max_y == 1023
    &&& m.prev_mouse_x == 0
    &&& m.prev_mouse_y == 0
    &&& m.mouse_x == 0
    &&& m.mouse_y == 0
    &&& !m.prev_button_down
    &&& !m.button_down
    &&& m.basic_string.len() == 0
}

/// The 16-bit value `w` read as a signed number.
pub open spec fn signed16(w: u16) -> i16 {
    if w < 32768 {
        w as i16
    } else {
        (w - 65536) as i16
    }
}

/// The 16-bit pattern of a signed number.
pub open spec fn bits16(v: i16) -> u16 {
    if v >= 0 {
        v as u16
    } else {
        (v + 65536) as u16
    }
}

/// The address of scratchpad byte `index` of slot `slot`.
pub open spec fn scratch_address(slot: usize, index: nat) -> u16 {
    (SCRATCH_BASE + index * 0x80 + slot) as u16
}

/// `n` in decimal.
pub open spec fn dec_text(n: nat) -> Seq<u8>
    decreases n,
{
    if n < 10 {
        seq![(48 + n) as u8]
    } else {
        dec_text(n / 10).push((48 + n % 10) as u8)
    }
}

/// `v` in decimal, with a minus sign where it is negative.
pub open spec fn signed_dec_text(v: int) -> Seq<u8> {
    if v < 0 {
        seq![45u8] + dec_text((-v) as nat)
    } else {
        dec_text(v as nat)
    }
}

/// The line BASIC reads from the card: "x,y,-1".
pub open spec fn basic_line(x: i16, y: i16) -> Seq<u8> {
    signed_dec_text(x as int) + seq![44u8] + signed_dec_text(y as int) + seq![44u8, 45u8, 49u8]
}

/// Whether a write to device register `address` reaches mapped bytes only: the clamp
/// screen holes for ClampMouse, and the card's scratchpad for PosMouse, ReadMouse and
/// ClearMouse.
pub open spec fn mouse_write_mapped(c: CpuView, slot: usize, address: usize) -> bool {
    let b = c.bus;
    &&& address == 5 ==> mapped(b, 0x478) && mapped(b, 0x4f8) && mapped(b, 0x578) && mapped(b, 0x5f8)
    &&& (address == 7 || address == 3) ==> forall|k: nat| k < 4 ==> #[trigger] mapped(b, scratch_address(slot, k))
    &&& address == 2 ==> forall|k: nat| (k < 4 || k == 6 || k == 7) ==> #[trigger] mapped(b, scratch_address(slot, k))
}

/// What a write to device register `address` does: the card state after it and the bus
/// writes it makes (to the slot's scratchpad).
pub open spec fn mouse_write_spec(m: MouseView, c: CpuView, slot: usize, address: usize, value: u8) -> (MouseView, Seq<(u16, u8)>) {
    let b = c.bus;
    if address == 1 {
        (MouseView { mode: value, ..m }, Seq::empty())
    } else if address == 5 {
        let min = signed16((bus_read(b, 0x578) as nat * 256 + bus_read(b, 0x478) as nat) as u16);
        let max = signed16((bus_read(b, 0x5f8) as nat * 256 + bus_read(b, 0x4f8) as nat) as u16);
        if value == 0 {
            (MouseView { clamp_min_x: min, clamp_max_x: max, ..m }, Seq::empty())
        } else {
            (MouseView { clamp_min_y: min, clamp_max_y: max, ..m }, Seq::empty())
        }
    } else if address == 6 {
        (MouseView { mouse_x: m.clamp_min_x, mouse_y: m.clamp_min_y, ..m }, Seq::empty())
    } else if address == 7 {
        let x = (bus_read(b, scratch_address(slot, 2)) as nat * 256 + bus_read(b, scratch_address(slot, 0)) as nat) as u16;
        let y = (bus_read(b, scratch_address(slot, 3)) as nat * 256 + bus_read(b, scratch_address(slot, 1)) as nat) as u16;
        (MouseView { mouse_x: signed16(x), mouse_y: signed16(y), ..m }, Seq::empty())
    } else if address == 2 {
        let changes = m.prev_mouse_x != m.mouse_x || m.prev_mouse_y != m.mouse_y;
        let status = with_bit(with_bit(with_bit(m.status, 5, changes), 6, m.prev_button_down), 7, m.button_down);
        let x = bits16(m.mouse_x);
        let y = bits16(m.mouse_y);
        (
            MouseView {
                status: with_bit(with_bit(with_bit(status, 2, false), 1, false), 3, false),
                prev_button_down: m.button_down,
                prev_mouse_x: m.mouse_x,
                prev_mouse_y: m.mouse_y,
                ..m
            },
            seq![
                (scratch_address(slot, 0), (x % 256) as u8),
                (scratch_address(slot, 1), (y % 256) as u8),
                (scratch_address(slot, 2), (x / 256) as u8),
                (scratch_address(slot, 3), (y / 256) as u8),
                (scratch_address(slot, 6), status),
                (scratch_address(slot, 7), m.mode),
            ],
        )
    } else if address == 3 {
        (
            MouseView { mouse_x: 0, mouse_y: 0, ..m },
            seq![
                (scratch_address(slot, 0), 0u8),
                (scratch_address(slot, 1), 0u8),
                (scratch_address(slot, 2), 0u8),
                (scratch_address(slot, 3), 0u8),
            ],
        )
    } else if address == 9 {
        (MouseView { mode: with_bit(m.mode, 0, true), ..m }, Seq::empty())
    } else {
        (m, Seq::empty())
    }
}

/// What a read of device register `address` does: the card after it, the value, and
/// whether the card's interrupt is released. 4 (ServeMouse) releases the interrupt and
/// gives 1 where an event is flagged; 10 (BasicInput) gives BASIC the next character of the
/// line "x,y,-1" with bit 7 set, starting a new line (and giving a return) when the last is
/// used up.
pub open spec fn mouse_read_spec(m: MouseView, address: usize) -> (MouseView, u8, bool) {
    if address == 4 {
        if bit(m.status, 2) || bit(m.status, 1) || bit(m.status, 3) {
            (m, 1, true)
        } else {
            (m, 0, false)
        }
    } else if address == 10 {
        if m.basic_string.len() == 0 {
            (MouseView { basic_string: basic_line(m.mouse_x, m.mouse_y), ..m }, 0x8d, false)
        } else {
            (MouseView { basic_string: m.basic_string.drop_first(), ..m }, m.basic_string[0] | 0x80u8, false)
        }
    } else {
        (m, 0, false)
    }
}

/// Whether the vertical blank raises the card's interrupt: the card is on and an enabled
/// movement or button event is pending, or screen refresh interrupts are enabled.
pub open spec fn signal_vbl_fires(m: MouseView) -> bool {
    (bit(m.mode, 0) && ((bit(m.mode, 1) && bit(m.status, 1)) || (bit(m.mode, 2) && bit(m.status, 2)))) || bit(m.mode, 3)
}

/// The mouse card.
pub struct MouseCard {
    rom: MemoryBank,
    slot: usize,
    mode: u8,
    status: u8,
    clamp_min_x: i16,
    clamp_min_y: i16,
    clamp_max_x: i16,
    clamp_max_y: i16,
    prev_mouse_x: i16,
    prev_mouse_y: i16,
    mouse_x: i16,
    mouse_y: i16,
    prev_button_down: bool,
    button_down: bool,
    basic_string: Vec<u8>,
}

impl View for MouseCard {
    type V = MouseView;

    closed spec fn view(&self) -> MouseView {
        MouseView {
            mode: self.mode,
            status: self.status,
            clamp_min_x: self.clamp_min_x,
            clamp_min_y: self.clamp_min_y,
            clamp_max_x: self.clamp_max_x,
            clamp_max_y: self.clamp_max_y,
            prev_mouse_x: self.prev_mouse_x,
            prev_mouse_y: self.prev_mouse_y,
            mouse_x: self.mouse_x,
            mouse_y: self.mouse_y,
            prev_button_down: self.prev_button_down,
            button_down: self.button_down,
            basic_string: self.basic_string@,
        }
    }
}

/// Appends `n` in decimal.
fn push_dec(out: &mut Vec<u8>, n: u32)
    ensures
        final(out)@ == old(out)@ + dec_text(n as nat),
    decreases n,
{
    if n >= 10 {
        push_dec(out, n / 10);
    }
    out.push((48 + n % 10) as u8);
    assert(final(out)@ =~= old(out)@ + dec_text(n as nat));
}

/// Appends `v` in decimal, with a minus sign where it is negative.
fn push_signed_dec(out: &mut Vec<u8>, v: i16)
    ensures
        final(out)@ == old(out)@ + signed_dec_text(v as int),
{
    if v < 0 {
        out.push(45u8);
        let ghost mid = out@;
        push_dec(out, (-(v as i32)) as u32);
        assert(out@ =~= old(out)@ + signed_dec_text(v as int));
    } else {
        push_dec(out, v as u32);
    }
}

impl MouseCard {
    /// The slot the card sits in.
    pub closed spec fn slot_spec(&self) -> usize {
        self.slot
    }

    /// The card's ROM.
    pub closed spec fn rom_spec(&self) -> Seq<u8> {
        self.rom@
    }

    /// A card in slot `slot` (0 to 7) with the given ROM, in its power-on state.
    pub fn new(rom: &[u8], slot: usize) -> (m: MouseCard)
        requires
            slot < 8,
        ensures
            mouse_default(m@),
            m.slot_spec() == slot,
            m.rom_spec() == rom@,
    {
        MouseCard {
            rom: MemoryBank::new_with_data(rom, true),
            slot,
            mode: 0,
            status: 0,
            clamp_min_x: 0,
            clamp_min_y: 0,
            clamp_max_x: 1023,
            clamp_max_y: 1023,
            prev_mouse_x: 0,
            prev_mouse_y: 0,
            mouse_x: 0,
            mouse_y: 0,
            prev_button_down: false,
            button_down: false,
            basic_string: Vec::new(),
        }
    }

    /// Back to the power-on state.
    pub fn reset(&mut self)
        ensures
            mouse_default(final(self)@),
            final(self).slot_spec() == old(self).slot_spec(),
            final(self).rom_spec() == old(self).rom_spec(),
    {
        self.mode = 0;
        self.status = 0;
        self.clamp_min_x = 0;
        self.clamp_min_y = 0;
        self.clamp_max_x = 1023;
        self.clamp_max_y = 1023;
        self.prev_mouse_x = 0;
        self.prev_mouse_y = 0;
        self.mouse_x = 0;
        self.mouse_y = 0;
        self.prev_button_down = false;
        self.button_down = false;
        self.basic_string = Vec::new();
    }

    /// The vertical blank: where the card is on and an enabled movement or button event is
    /// pending, or screen refresh interrupts are enabled, the refresh event is flagged and
    /// the card raises its interrupt.
    pub fn signal_vbl(&mut self, cpu: &mut Mos6502)
        ensures
            final(self).slot_spec() == old(self).slot_spec(),
            final(self).rom_spec() == old(self).rom_spec(),
            signal_vbl_fires(old(self)@) ==> final(self)@ == (MouseView { status: with_bit(old(self)@.status, 3, true), ..old(self)@ })
                && final(cpu)@ == (CpuView { irq: old(cpu)@.irq.push(INTERRUPT_SOURCE_MOUSE), ..old(cpu)@ }),
            !signal_vbl_fires(old(self)@) ==> final(self)@ == old(self)@ && final(cpu)@ == old(cpu)@,
            final(cpu).clock_rate() == old(cpu).clock_rate(),
    {
        let on = get_bit(self.mode, 0);
        let im = get_bit(self.mode, 1);
        let ib = get_bit(self.mode, 2);
        let isr = get_bit(self.mode, 3);
        let sm = get_bit(self.status, 1);
        let sb = get_bit(self.status, 2);
        if (on && ((im && sm) || (ib && sb))) || isr {
            self.status = set_bit(self.status, 3, true);
            cpu.irq_trigger(false, INTERRUPT_SOURCE_MOUSE);
        }
    }

    /// The host mouse, mapped onto the clamp window by the caller: where the button
    /// changed, the button event is flagged; where the horizontal position changed, the
    /// movement event is.
    pub fn process_mouse(&mut self, mouse_x: i16, mouse_y: i16, primary_down: bool)
        ensures
            final(self).slot_spec() == old(self).slot_spec(),
            final(self).rom_spec() == old(self).rom_spec(),
            ({
                let m = old(self)@;
                let s1 = if primary_down != m.button_down { with_bit(m.status, 2, true) } else { m.status };
                let s2 = if m.mouse_x != mouse_x { with_bit(s1, 1, true) } else { s1 };
                final(self)@ == (MouseView { button_down: primary_down, mouse_x, mouse_y, status: s2, ..m })
            }),
    {
        let button_changed = primary_down != self.button_down;
        let pointer_changed = (self.mouse_x != mouse_x) || (self.mouse_y != self.mouse_y);
        self.button_down = primary_down;
        self.mouse_x = mouse_x;
        self.mouse_y = mouse_y;
        if button_changed {
            self.status = set_bit(self.status, 2, true);
        }
        if pointer_changed {
            self.status = set_bit(self.status, 1, true);
        }
    }

    /// The card has no expansion ROM.
    pub fn read_expansion_rom(&self, address: usize) -> (r: Result<Option<u8>, Error>)
        ensures
            r == Ok::<Option<u8>, Error>(None),
    {
        Ok(None)
    }

    /// Byte `address` of the slot ROM.
    pub fn read_rom(&self, address: usize) -> (r: Result<u8, Error>)
        ensures
            address < self.rom_spec().len() ==> r == Ok::<u8, Error>(self.rom_spec()[address as int]),
            address >= self.rom_spec().len() ==> r == Err::<u8, Error>(
                Error::MemoryFault { address, size: self.rom_spec().len() as usize },
            ),
    {
        self.rom.read(address)
    }

    /// A read of device register `address`: 4 (ServeMouse) releases the interrupt and
    /// gives 1 where an event is flagged; 10 (BasicInput) gives BASIC the next character
    /// of the line "x,y,-1" with bit 7 set, starting a new line (and giving a return) when
    /// the last is used up.
    pub fn device_read(&mut self, address: usize, cpu: &mut Mos6502) -> (r: Result<u8, Error>)
        ensures
            final(self).slot_spec() == old(self).slot_spec(),
            final(self).rom_spec() == old(self).rom_spec(),
            final(cpu).clock_rate() == old(cpu).clock_rate(),
            ({
                let (m, v, release) = mouse_read_spec(old(self)@, address);
                &&& r == Ok::<u8, Error>(v)
                &&& final(self)@ == m
                &&& release ==> final(cpu)@ == irq_released(old(cpu)@, INTERRUPT_SOURCE_MOUSE)
                &&& !release ==> final(cpu)@ == old(cpu)@
            }),
    {
        if address == 4 {
            if get_bit(self.status, 2) || get_bit(self.status, 1) || get_bit(self.status, 3) {
                cpu.irq_release(false, INTERRUPT_SOURCE_MOUSE);
                return Ok(1);
            }
        } else if address == 10 {
            if self.basic_string.len() == 0 {
                let mut line: Vec<u8> = Vec::new();
                push_signed_dec(&mut line, self.mouse_x);
                line.push(44u8);
                push_signed_dec(&mut line, self.mouse_y);
                line.push(44u8);
                line.push(45u8);
                line.push(49u8);
                assert(line@ =~= basic_line(self.mouse_x, self.mouse_y));
                self.basic_string = line;
                return Ok(0x8d);
            } else {
                let next = self.basic_string.remove(0);
                return Ok(next | 0x80);
            }
        }
        Ok(0)
    }

    /// A write to device register `address` (the mouse firmware's calls): 1 SetMouse sets
    /// the mode, 5 ClampMouse sets the X (value 0) or Y clamps from the screen holes, 0
    /// InitMouse resets the card, 6 HomeMouse moves to the clamp minimum, 7 PosMouse moves
    /// to the position in the scratchpad, 2 ReadMouse reports position, status and mode in
    /// the scratchpad and clears the events, 3 ClearMouse moves to 0,0, 9 turns the card
    /// on.
    pub fn device_write(&mut self, address: usize, value: u8, cpu: &mut Mos6502) -> (r: Result<(), Error>)
        requires
            mouse_write_mapped(old(cpu)@, old(self).slot_spec(), address),
            old(self).slot_spec() < 8,
        ensures
            r is Ok,
            final(self).slot_spec() == old(self).slot_spec(),
            final(self).rom_spec() == old(self).rom_spec(),
            same_map(old(cpu)@.bus, final(cpu)@.bus),
            final(cpu).clock_rate() == old(cpu).clock_rate(),
            address == 0 ==> mouse_default(final(self)@) && final(cpu)@ == old(cpu)@,
            address != 0 ==> ({
                let (m, writes) = mouse_write_spec(old(self)@, old(cpu)@, old(self).slot_spec(), address, value);
                final(self)@ == m && final(cpu)@ == with_writes(old(cpu)@, writes)
            }),
    {
        let slot = self.slot;
        if address == 1 {
            self.mode = value;
        } else if address == 5 {
            let min_w = (cpu.read_bus(0x578) as u16) * 256 + cpu.read_bus(0x478) as u16;
            let max_w = (cpu.read_bus(0x5f8) as u16) * 256 + cpu.read_bus(0x4f8) as u16;
            let min = Self::to_signed(min_w);
            let max = Self::to_signed(max_w);
            if value == 0 {
                self.clamp_min_x = min;
                self.clamp_max_x = max;
            } else {
                self.clamp_min_y = min;
                self.clamp_max_y = max;
            }
        } else if address == 0 {
            self.reset();
        } else if address == 6 {
            self.mouse_x = self.clamp_min_x;
            self.mouse_y = self.clamp_min_y;
        } else if address == 7 {
            let x = (cpu.read_bus(Self::scratch(slot, 2)) as u16) * 256 + cpu.read_bus(Self::scratch(slot, 0)) as u16;
            let y = (cpu.read_bus(Self::scratch(slot, 3)) as u16) * 256 + cpu.read_bus(Self::scratch(slot, 1)) as u16;
            self.mouse_x = Self::to_signed(x);
            self.mouse_y = Self::to_signed(y);
        } else if address == 2 {
            let changes = (self.prev_mouse_x != self.mouse_x) || (self.prev_mouse_y != self.mouse_y);
            let s1 = set_bit(self.status, 5, changes);
            let s2 = set_bit(s1, 6, self.prev_button_down);
            let status = set_bit(s2, 7, self.button_down);
            let x = Self::to_bits(self.mouse_x);
            let y = Self::to_bits(self.mouse_y);
            let writes = [
                (Self::scratch(slot, 0), (x % 256) as u8),
                (Self::scratch(slot, 1), (y % 256) as u8),
                (Self::scratch(slot, 2), (x / 256) as u8),
                (Self::scratch(slot, 3), (y / 256) as u8),
                (Self::scratch(slot, 6), status),
                (Self::scratch(slot, 7), self.mode),
            ];
            cpu.write_bus_all(&writes);
            self.prev_button_down = self.button_down;
            self.prev_mouse_x = self.mouse_x;
            self.prev_mouse_y = self.mouse_y;
            let t1 = set_bit(status, 2, false);
            let t2 = set_bit(t1, 1, false);
            self.status = set_bit(t2, 3, false);
            proof {
                let (m, w) = mouse_write_spec(old(self)@, old(cpu)@, slot, address, value);
                assert(writes@ =~= w);
            }
        } else if address == 3 {
            self.mouse_x = 0;
            self.mouse_y = 0;
            let writes = [
                (Self::scratch(slot, 0), 0u8),
                (Self::scratch(slot, 1), 0u8),
                (Self::scratch(slot, 2), 0u8),
                (Self::scratch(slot, 3), 0u8),
            ];
            cpu.write_bus_all(&writes);
            proof {
                let (m, w) = mouse_write_spec(old(self)@, old(cpu)@, slot, address, value);
                assert(writes@ =~= w);
            }
        } else if address == 9 {
            self.mode = set_bit(self.mode, 0, true);
        }
        proof {
            if address != 2 && address != 3 {
                assert(with_writes(old(cpu)@, Seq::<(u16, u8)>::empty()) == old(cpu)@);
            }
        }
        Ok(())
    }

    /// The address of scratchpad byte `index` of slot `slot`.
    fn scratch(slot: usize, index: usize) -> (r: u16)
        requires
            slot < 8,
            index <= 7,
        ensures
            r == scratch_address(slot, index as nat),
    {
        (SCRATCH_BASE + index * 0x80 + slot) as u16
    }

    fn to_signed(w: u16) -> (r: i16)
        ensures
            r == signed16(w),
    {
        if w < 32768 {
            w as i16
        } else {
            (w as i32 - 65536) as i16
        }
    }

    fn to_bits(v: i16) -> (r: u16)
        ensures
            r == bits16(v),
    {
        if v >= 0 {
            v as u16
        } else {
            (v as i32 + 65536) as u16
        }
    }
}

} // verus!

verus! {

/// ReadMouse reports and then clears the movement, button and screen refresh events, and
/// what it reports as the previous position and button becomes the current ones.
pub proof fn lemma_read_mouse_clears_events(m: MouseView, c: CpuView, slot: usize, value: u8)
    ensures
        ({
            let after = mouse_write_spec(m, c, slot, 2, value).0;
            &&& !bit(after.status, 1)
            &&& !bit(after.status, 2)
            &&& !bit(after.status, 3)
            &&& after.prev_mouse_x == m.mouse_x
            &&& after.prev_mouse_y == m.mouse_y
            &&& after.prev_button_down == m.button_down
        }),
{
    let changes = m.prev_mouse_x != m.mouse_x || m.prev_mouse_y != m.mouse_y;
    let status = with_bit(with_bit(with_bit(m.status, 5, changes), 6, m.prev_button_down), 7, m.button_down);
    let s1 = with_bit(status, 2, false);
    let s2 = with_bit(s1, 1, false);
    let s3 = with_bit(s2, 3, false);
    lemma_with_bit(s2, 3, false, 3);
    lemma_with_bit(s2, 3, false, 1);
    lemma_with_bit(s2, 3, false, 2);
    lemma_with_bit(s1, 1, false, 1);
    lemma_with_bit(s1, 1, false, 2);
    lemma_with_bit(status, 2, false, 2);
}


/// ReadMouse twice in a row: the second reports no movement, since the first made the
/// reported position the previous one.
pub proof fn lemma_second_read_mouse_reports_no_change(m: MouseView, c: CpuView, c2: CpuView, slot: usize, value: u8, value2: u8)
    ensures
        ({
            let after = mouse_write_spec(m, c, slot, 2, value).0;
            let status = mouse_write_spec(after, c2, slot, 2, value2).1[4].1;
            &&& !bit(status, 5)
            &&& bit(status, 7) == m.button_down
            &&& bit(status, 6) == m.button_down
        }),
{
    let after = mouse_write_spec(m, c, slot, 2, value).0;
    lemma_read_mouse_clears_events(m, c, slot, value);
    let s0 = with_bit(after.status, 5, false);
    let s1 = with_bit(s0, 6, after.prev_button_down);
    let s2 = with_bit(s1, 7, after.button_down);
    lemma_with_bit(after.status, 5, false, 5);
    lemma_with_bit(s0, 6, after.prev_button_down, 5);
    lemma_with_bit(s0, 6, after.prev_button_down, 6);
    lemma_with_bit(s1, 7, after.button_down, 5);
    lemma_with_bit(s1, 7, after.button_down, 6);
    lemma_with_bit(s1, 7, after.button_down, 7);
}

} // verus!
