use vstd::prelude::*;

use crate::cpu::mos6502::bus::{
    bus_read, bus_read_u16, bus_write, lemma_write_same_map, mapped, same_map, word_mapped, wrap8, wrap_add16, Bus,
    SlaveView,
};
use crate::cpu::mos6502::opcodes::{operand_length, AddressingMode, Opcode};
use crate::targets::ExecutionState;

verus! {

/// Whether bit `n` of `value` is set.
pub open spec fn bit_set(value: u8, n: u8) -> bool {
    (value >> n) & 1u8 == 1u8
}

/// The processor status flags.
#[derive(Debug, Clone, Copy, PartialEq, Eq, Structural)]
pub struct Status {
    pub carry: bool,
    pub zero: bool,
    pub irq_disable: bool,
    pub decimal_mode: bool,
    pub brk_command: bool,
    pub overflow: bool,
    pub negative: bool,
}

/// The status register as pushed on the stack: bit 5 always set, bit 4 (break) clear.
pub open spec fn status_byte_spec(s: Status) -> u8 {
    (0x20u8 | (if s.negative { 0x80u8 } else { 0u8 }) | (if s.overflow { 0x40u8 } else { 0u8 })
        | (if s.decimal_mode { 0x08u8 } else { 0u8 }) | (if s.irq_disable { 0x04u8 } else { 0u8 })
        | (if s.zero { 0x02u8 } else { 0u8 }) | (if s.carry { 0x01u8 } else { 0u8 })) as u8
}

/// The flags that a status byte pulled from the stack sets; the break flag is never set.
pub open spec fn status_from_byte_spec(value: u8) -> Status {
    Status {
        carry: bit_set(value, 0),
        zero: bit_set(value, 1),
        irq_disable: bit_set(value, 2),
        decimal_mode: bit_set(value, 3),
        brk_command: false,
        overflow: bit_set(value, 6),
        negative: bit_set(value, 7),
    }
}

impl Status {
    /// All flags clear.
    pub fn new() -> (s: Status)
        ensures
            s == (Status {
                carry: false,
                zero: false,
                irq_disable: false,
                decimal_mode: false,
                brk_command: false,
                overflow: false,
                negative: false,
            }),
    {
        Status {
            carry: false,
            zero: false,
            irq_disable: false,
            decimal_mode: false,
            brk_command: false,
            overflow: false,
            negative: false,
        }
    }

    /// The flags encoded by a status byte.
    pub fn from_byte(value: u8) -> (s: Status)
        ensures
            s == status_from_byte_spec(value),
    {
        Status {
            carry: (value >> 0) & 1 == 1,
            zero: (value >> 1) & 1 == 1,
            irq_disable: (value >> 2) & 1 == 1,
            decimal_mode: (value >> 3) & 1 == 1,
            brk_command: false,
            overflow: (value >> 6) & 1 == 1,
            negative: (value >> 7) & 1 == 1,
        }
    }

    /// The byte that encodes these flags.
    pub fn to_byte(self) -> (b: u8)
        ensures
            bit_set(b, 7) == self.negative,
            bit_set(b, 6) == self.overflow,
            bit_set(b, 5),
            !bit_set(b, 4),
            bit_set(b, 3) == self.decimal_mode,
            bit_set(b, 2) == self.irq_disable,
            bit_set(b, 1) == self.zero,
            bit_set(b, 0) == self.carry,
            b == status_byte_spec(self),
    {
        let n: u8 = if self.negative { 0x80 } else { 0 };
        let v: u8 = if self.overflow { 0x40 } else { 0 };
        let d: u8 = if self.decimal_mode { 0x08 } else { 0 };
        let i: u8 = if self.irq_disable { 0x04 } else { 0 };
        let z: u8 = if self.zero { 0x02 } else { 0 };
        let c: u8 = if self.carry { 0x01 } else { 0 };
        let status: u8 = 0x20 | n | v | d | i | z | c;
        proof {
            lemma_status_byte_bits(self);
        }
        status
    }
}

/// Each bit of the encoded status byte is the flag it stands for.
pub proof fn lemma_status_byte_bits(s: Status)
    ensures
        bit_set(status_byte_spec(s), 7) == s.negative,
        bit_set(status_byte_spec(s), 6) == s.overflow,
        bit_set(status_byte_spec(s), 5),
        !bit_set(status_byte_spec(s), 4),
        bit_set(status_byte_spec(s), 3) == s.decimal_mode,
        bit_set(status_byte_spec(s), 2) == s.irq_disable,
        bit_set(status_byte_spec(s), 1) == s.zero,
        bit_set(status_byte_spec(s), 0) == s.carry,
{
    let n: u8 = if s.negative { 0x80u8 } else { 0u8 };
    let v: u8 = if s.overflow { 0x40u8 } else { 0u8 };
    let d: u8 = if s.decimal_mode { 0x08u8 } else { 0u8 };
    let i: u8 = if s.irq_disable { 0x04u8 } else { 0u8 };
    let z: u8 = if s.zero { 0x02u8 } else { 0u8 };
    let c: u8 = if s.carry { 0x01u8 } else { 0u8 };
    let b: u8 = (0x20u8 | n | v | d | i | z | c) as u8;
    assert(b == status_byte_spec(s));
    assert(((b >> 7u8) & 1u8 == 1u8) == (n == 0x80u8)) by (bit_vector)
        requires
            b == (0x20u8 | n | v | d | i | z | c) as u8,
            n == 0x80u8 || n == 0u8,
            v == 0x40u8 || v == 0u8,
            d == 0x08u8 || d == 0u8,
            i == 0x04u8 || i == 0u8,
            z == 0x02u8 || z == 0u8,
            c == 0x01u8 || c == 0u8,
    ;
    assert(((b >> 6u8) & 1u8 == 1u8) == (v == 0x40u8)) by (bit_vector)
        requires
            b == (0x20u8 | n | v | d | i | z | c) as u8,
            n == 0x80u8 || n == 0u8,
            v == 0x40u8 || v == 0u8,
            d == 0x08u8 || d == 0u8,
            i == 0x04u8 || i == 0u8,
            z == 0x02u8 || z == 0u8,
            c == 0x01u8 || c == 0u8,
    ;
    assert((b >> 5u8) & 1u8 == 1u8 && (b >> 4u8) & 1u8 != 1u8) by (bit_vector)
        requires
            b == (0x20u8 | n | v | d | i | z | c) as u8,
            n == 0x80u8 || n == 0u8,
            v == 0x40u8 || v == 0u8,
            d == 0x08u8 || d == 0u8,
            i == 0x04u8 || i == 0u8,
            z == 0x02u8 || z == 0u8,
            c == 0x01u8 || c == 0u8,
    ;
    assert(((b >> 3u8) & 1u8 == 1u8) == (d == 0x08u8) && ((b >> 2u8) & 1u8 == 1u8) == (i
        == 0x04u8)) by (bit_vector)
        requires
            b == (0x20u8 | n | v | d | i | z | c) as u8,
            n == 0x80u8 || n == 0u8,
            v == 0x40u8 || v == 0u8,
            d == 0x08u8 || d == 0u8,
            i == 0x04u8 || i == 0u8,
            z == 0x02u8 || z == 0u8,
            c == 0x01u8 || c == 0u8,
    ;
    assert(((b >> 1u8) & 1u8 == 1u8) == (z == 0x02u8) && ((b >> 0u8) & 1u8 == 1u8) == (c
        == 0x01u8)) by (bit_vector)
        requires
            b == (0x20u8 | n | v | d | i | z | c) as u8,
            n == 0x80u8 || n == 0u8,
            v == 0x40u8 || v == 0u8,
            d == 0x08u8 || d == 0u8,
            i == 0x04u8 || i == 0u8,
            z == 0x02u8 || z == 0u8,
            c == 0x01u8 || c == 0u8,
    ;
}

} // verus!

verus! {

/// Pushing the status register and pulling it back gives the same flags, with break clear.
pub proof fn lemma_status_roundtrip(s: Status)
    ensures
        status_from_byte_spec(status_byte_spec(s)) == (Status { brk_command: false, ..s }),
{
    lemma_status_byte_bits(s);
}

/// Pulling a status byte and pushing it again gives the byte with bit 5 set and bit 4 clear.
pub proof fn lemma_status_byte_roundtrip(b: u8)
    ensures
        status_byte_spec(status_from_byte_spec(b)) == ((b | 0x20u8) & 0xefu8),
{
    let s = status_from_byte_spec(b);
    let n: u8 = if s.negative { 0x80u8 } else { 0u8 };
    let v: u8 = if s.overflow { 0x40u8 } else { 0u8 };
    let d: u8 = if s.decimal_mode { 0x08u8 } else { 0u8 };
    let i: u8 = if s.irq_disable { 0x04u8 } else { 0u8 };
    let z: u8 = if s.zero { 0x02u8 } else { 0u8 };
    let c: u8 = if s.carry { 0x01u8 } else { 0u8 };
    assert((0x20u8 | n | v | d | i | z | c) as u8 == ((b | 0x20u8) & 0xefu8)) by (bit_vector)
        requires
            n == (if (b >> 7u8) & 1u8 == 1u8 { 0x80u8 } else { 0u8 }),
            v == (if (b >> 6u8) & 1u8 == 1u8 { 0x40u8 } else { 0u8 }),
            d == (if (b >> 3u8) & 1u8 == 1u8 { 0x08u8 } else { 0u8 }),
            i == (if (b >> 2u8) & 1u8 == 1u8 { 0x04u8 } else { 0u8 }),
            z == (if (b >> 1u8) & 1u8 == 1u8 { 0x02u8 } else { 0u8 }),
            c == (if (b >> 0u8) & 1u8 == 1u8 { 0x01u8 } else { 0u8 }),
    ;
}

/// The processor registers.
#[derive(Debug, Clone, Copy, PartialEq, Eq, Structural)]
pub struct Registers {
    pub pc: u16,
    pub accumulator: u8,
    pub index_y: u8,
    pub index_x: u8,
    pub sp: u8,
    pub status: Status,
}

/// All registers zero and all flags clear.
pub open spec fn registers_zero() -> Registers {
    Registers {
        pc: 0,
        accumulator: 0,
        index_y: 0,
        index_x: 0,
        sp: 0,
        status: Status {
            carry: false,
            zero: false,
            irq_disable: false,
            decimal_mode: false,
            brk_command: false,
            overflow: false,
            negative: false,
        },
    }
}

impl Registers {
    /// All registers zero and all flags clear.
    pub fn new() -> (r: Registers)
        ensures
            r == registers_zero(),
    {
        Registers { pc: 0, accumulator: 0, index_y: 0, index_x: 0, sp: 0, status: Status::new() }
    }
}

/// The operand that an addressing mode yields.
#[derive(Debug, Clone, Copy, PartialEq, Eq, Structural)]
pub enum Operand {
    Immediate(u16),
    Address(u16),
    Implied,
    Accumulator,
    ZeroPageRel(u8, u16),
}

} // verus!

verus! {

/// The byte `k` bytes after the program counter.
pub open spec fn byte_at_pc(regs: Registers, bus: Seq<SlaveView>, k: int) -> u8 {
    bus_read(bus, wrap_add16(regs.pc, k))
}

/// The value of an operand byte read as a signed displacement.
pub open spec fn signed8(b: u8) -> int {
    if b < 128 {
        b as int
    } else {
        b as int - 256
    }
}

/// Whether the high bytes of two addresses differ.
pub open spec fn page_crossed(a: u16, b: u16) -> bool {
    a / 256 != b / 256
}

/// The operand an addressing mode yields, and the extra cycle for crossing a page, when the
/// program counter points just past the opcode. The program counter then moves past the
/// operand bytes (`operand_length`).
pub open spec fn operand_spec(regs: Registers, bus: Seq<SlaveView>, mode: AddressingMode) -> (Operand, usize) {
    let b1 = byte_at_pc(regs, bus, 0);
    let b2 = byte_at_pc(regs, bus, 1);
    let word = (b2 as int * 256 + b1 as int) as u16;
    match mode {
        AddressingMode::Immediate => (Operand::Immediate(b1 as u16), 0),
        AddressingMode::Absolute => (Operand::Address(word), 0),
        AddressingMode::ZeroPage => (Operand::Address(b1 as u16), 0),
        AddressingMode::ZeroPageIndirect => (Operand::Address(bus_read_u16(bus, b1 as u16)), 0),
        AddressingMode::Accum => (Operand::Accumulator, 0),
        AddressingMode::Implied => (Operand::Implied, 0),
        AddressingMode::IndexX => (
            Operand::Address(bus_read_u16(bus, wrap8(regs.index_x as int + b1 as int) as u16)),
            0,
        ),
        AddressingMode::IndexY => {
            let base = bus_read_u16(bus, b1 as u16);
            let result = wrap_add16(base, regs.index_y as int);
            (Operand::Address(result), if page_crossed(base, result) { 1 } else { 0 })
        },
        AddressingMode::ZeroPageX => (
            Operand::Address(wrap8(regs.index_x as int + b1 as int) as u16),
            0,
        ),
        AddressingMode::ZeroPageY => (
            Operand::Address(wrap8(regs.index_y as int + b1 as int) as u16),
            0,
        ),
        AddressingMode::AbsX => {
            let result = wrap_add16(word, regs.index_x as int);
            (Operand::Address(result), if page_crossed(word, result) { 1 } else { 0 })
        },
        AddressingMode::AbsY => {
            let result = wrap_add16(word, regs.index_y as int);
            (Operand::Address(result), if page_crossed(word, result) { 1 } else { 0 })
        },
        AddressingMode::Relative => (
            Operand::Address(wrap_add16(regs.pc, 1 + signed8(b1))),
            0,
        ),
        AddressingMode::Indirect => (Operand::Address(bus_read_u16(bus, word)), 0),
        AddressingMode::ZeroPageRel => (
            Operand::ZeroPageRel(bus_read(bus, b1 as u16), wrap_add16(regs.pc, 2 + signed8(b2))),
            0,
        ),
        AddressingMode::Nop2 => (Operand::Implied, 0),
        AddressingMode::Nop3 => (Operand::Implied, 0),
        AddressingMode::AbsXIndirect => (
            Operand::Address(bus_read_u16(bus, wrap_add16(word, regs.index_x as int))),
            0,
        ),
    }
}

/// Whether the bytes an addressing mode reads are mapped, when the program counter points
/// just past the opcode: the operand bytes, and the pointer that an indirect mode follows
/// (the zero-page byte that a zero-page-relative operand tests too).
pub open spec fn operand_bytes_mapped(regs: Registers, bus: Seq<SlaveView>, mode: AddressingMode) -> bool {
    let pc = regs.pc;
    let b1 = byte_at_pc(regs, bus, 0);
    let word = (byte_at_pc(regs, bus, 1) as int * 256 + b1 as int) as u16;
    let one = mapped(bus, pc);
    let two = word_mapped(bus, pc);
    match mode {
        AddressingMode::Accum | AddressingMode::Implied => true,
        AddressingMode::Immediate | AddressingMode::ZeroPage | AddressingMode::ZeroPageX | AddressingMode::ZeroPageY
        | AddressingMode::Relative | AddressingMode::Nop2 => one,
        AddressingMode::Absolute | AddressingMode::AbsX | AddressingMode::AbsY | AddressingMode::Nop3 => two,
        AddressingMode::ZeroPageIndirect | AddressingMode::IndexY => one && word_mapped(bus, b1 as u16),
        AddressingMode::IndexX => one && word_mapped(bus, wrap8(regs.index_x as int + b1 as int) as u16),
        AddressingMode::Indirect => two && word_mapped(bus, word),
        AddressingMode::AbsXIndirect => two && word_mapped(bus, wrap_add16(word, regs.index_x as int)),
        AddressingMode::ZeroPageRel => two && mapped(bus, b1 as u16),
    }
}

/// The processor state that instructions read and change.
pub struct State {
    pub registers: Registers,
    pub bus: Bus,
    pub execution_state: ExecutionState,
    pub breakpoints: Vec<u16>,
    pub stack_frame: Vec<u16>,
}

/// The stack page address that the stack pointer designates.
pub open spec fn stack_address(sp: u8) -> u16 {
    (0x100 + sp as int) as u16
}

impl State {
    /// A stopped processor with zeroed registers on the given bus.
    pub fn new(bus: Bus) -> (s: State)
        ensures
            s.registers == registers_zero(),
            s.bus@ == bus@,
            s.execution_state == ExecutionState::Stopped,
            s.breakpoints@ == Seq::<u16>::empty(),
            s.stack_frame@ == Seq::<u16>::empty(),
    {
        State {
            registers: Registers::new(),
            bus,
            execution_state: ExecutionState::Stopped,
            breakpoints: Vec::new(),
            stack_frame: Vec::new(),
        }
    }

    /// Fetches the opcode byte at the program counter and moves past it.
    pub fn next_instruction(&mut self) -> (i: u8)
        requires
            mapped(old(self).bus@, old(self).registers.pc),
        ensures
            i == bus_read(old(self).bus@, old(self).registers.pc),
            final(self).registers == (Registers { pc: wrap_add16(old(self).registers.pc, 1), ..old(self).registers }),
            final(self).bus@ == old(self).bus@,
            final(self).stack_frame@ == old(self).stack_frame@,
            final(self).execution_state == old(self).execution_state,
            final(self).breakpoints@ == old(self).breakpoints@,
    {
        self.pc_read_u8()
    }

    /// Reads the byte at the program counter and moves past it.
    pub fn pc_read_u8(&mut self) -> (val: u8)
        requires
            mapped(old(self).bus@, old(self).registers.pc),
        ensures
            val == bus_read(old(self).bus@, old(self).registers.pc),
            final(self).registers == (Registers { pc: wrap_add16(old(self).registers.pc, 1), ..old(self).registers }),
            final(self).bus@ == old(self).bus@,
            final(self).stack_frame@ == old(self).stack_frame@,
            final(self).execution_state == old(self).execution_state,
            final(self).breakpoints@ == old(self).breakpoints@,
    {
        assert(mapped(self.bus@, self.registers.pc));
        let val = self.bus.read(self.registers.pc);
        self.registers.pc = self.registers.pc.wrapping_add(1);
        val
    }

    /// Reads the little-endian word at the program counter and moves past it.
    pub fn pc_read_u16(&mut self) -> (val: u16)
        requires
            word_mapped(old(self).bus@, old(self).registers.pc),
        ensures
            val == bus_read_u16(old(self).bus@, old(self).registers.pc),
            final(self).registers == (Registers { pc: wrap_add16(old(self).registers.pc, 2), ..old(self).registers }),
            final(self).bus@ == old(self).bus@,
            final(self).stack_frame@ == old(self).stack_frame@,
            final(self).execution_state == old(self).execution_state,
            final(self).breakpoints@ == old(self).breakpoints@,
    {
        let pc = self.registers.pc;
        assert(mapped(self.bus@, pc) && mapped(self.bus@, wrap_add16(pc, 1)));
        let val = self.bus.read_u16(pc);
        self.registers.pc = pc.wrapping_add(2);
        val
    }

    /// Reads the operand of an instruction in the given addressing mode, moving the program
    /// counter past the operand bytes; also returns the extra cycle taken when indexing
    /// crosses a page.
    pub fn read_arg(&mut self, opcode: &Opcode) -> (r: (Operand, usize))
        requires
            operand_bytes_mapped(old(self).registers, old(self).bus@, opcode.mode),
        ensures
            r == operand_spec(old(self).registers, old(self).bus@, opcode.mode),
            final(self).registers == (Registers {
                pc: wrap_add16(old(self).registers.pc, operand_length(opcode.mode) as int),
                ..old(self).registers
            }),
            final(self).bus@ == old(self).bus@,
            final(self).stack_frame@ == old(self).stack_frame@,
            final(self).execution_state == old(self).execution_state,
            final(self).breakpoints@ == old(self).breakpoints@,
    {
        let mode = opcode.mode;
        match mode {
            AddressingMode::Accum => (Operand::Accumulator, 0),
            AddressingMode::Implied => (Operand::Implied, 0),
            AddressingMode::Nop2 => {
                let _ = self.pc_read_u8();
                (Operand::Implied, 0)
            },
            AddressingMode::Nop3 => {
                let _ = self.pc_read_u16();
                (Operand::Implied, 0)
            },
            AddressingMode::Immediate | AddressingMode::ZeroPage | AddressingMode::ZeroPageX
            | AddressingMode::ZeroPageY => self.arg_zero_page(mode),
            AddressingMode::Absolute | AddressingMode::AbsX | AddressingMode::AbsY => self.arg_absolute(mode),
            AddressingMode::ZeroPageIndirect | AddressingMode::IndexX | AddressingMode::IndexY => self.arg_zero_page_indirect(mode),
            AddressingMode::Indirect | AddressingMode::AbsXIndirect => self.arg_indirect(mode),
            AddressingMode::Relative => self.arg_relative(mode),
            AddressingMode::ZeroPageRel => self.arg_zero_page_rel(mode),
        }
    }

    fn arg_zero_page(&mut self, mode: AddressingMode) -> (r: (Operand, usize))
        requires
            operand_bytes_mapped(old(self).registers, old(self).bus@, mode),
            mode == AddressingMode::Immediate || mode == AddressingMode::ZeroPage || mode
                == AddressingMode::ZeroPageX || mode == AddressingMode::ZeroPageY,
        ensures
            r == operand_spec(old(self).registers, old(self).bus@, mode),
            final(self).registers == (Registers {
                pc: wrap_add16(old(self).registers.pc, operand_length(mode) as int),
                ..old(self).registers
            }),
            final(self).bus@ == old(self).bus@,
            final(self).stack_frame@ == old(self).stack_frame@,
            final(self).execution_state == old(self).execution_state,
            final(self).breakpoints@ == old(self).breakpoints@,
    {
        let b = self.pc_read_u8();
        let arg = match mode {
            AddressingMode::Immediate => Operand::Immediate(b as u16),
            AddressingMode::ZeroPage => Operand::Address(b as u16),
            AddressingMode::ZeroPageX => Operand::Address(self.registers.index_x.wrapping_add(b) as u16),
            _ => Operand::Address(self.registers.index_y.wrapping_add(b) as u16),
        };
        (arg, 0)
    }

    fn arg_absolute(&mut self, mode: AddressingMode) -> (r: (Operand, usize))
        requires
            operand_bytes_mapped(old(self).registers, old(self).bus@, mode),
            mode == AddressingMode::Absolute || mode == AddressingMode::AbsX || mode == AddressingMode::AbsY,
        ensures
            r == operand_spec(old(self).registers, old(self).bus@, mode),
            final(self).registers == (Registers {
                pc: wrap_add16(old(self).registers.pc, operand_length(mode) as int),
                ..old(self).registers
            }),
            final(self).bus@ == old(self).bus@,
            final(self).stack_frame@ == old(self).stack_frame@,
            final(self).execution_state == old(self).execution_state,
            final(self).breakpoints@ == old(self).breakpoints@,
    {
        let hi = self.pc_read_u16();
        let index: u16 = match mode {
            AddressingMode::Absolute => {
                return (Operand::Address(hi), 0);
            },
            AddressingMode::AbsX => self.registers.index_x as u16,
            _ => self.registers.index_y as u16,
        };
        let result = index.wrapping_add(hi);
        assert(hi >> 8 == hi / 256 && result >> 8 == result / 256) by (bit_vector);
        let extra_cycles: usize = if result >> 8 != hi >> 8 { 1 } else { 0 };
        (Operand::Address(result), extra_cycles)
    }

    fn arg_zero_page_indirect(&mut self, mode: AddressingMode) -> (r: (Operand, usize))
        requires
            operand_bytes_mapped(old(self).registers, old(self).bus@, mode),
            mode == AddressingMode::ZeroPageIndirect || mode == AddressingMode::IndexX || mode
                == AddressingMode::IndexY,
        ensures
            r == operand_spec(old(self).registers, old(self).bus@, mode),
            final(self).registers == (Registers {
                pc: wrap_add16(old(self).registers.pc, operand_length(mode) as int),
                ..old(self).registers
            }),
            final(self).bus@ == old(self).bus@,
            final(self).stack_frame@ == old(self).stack_frame@,
            final(self).execution_state == old(self).execution_state,
            final(self).breakpoints@ == old(self).breakpoints@,
    {
        let b = self.pc_read_u8();
        match mode {
            AddressingMode::ZeroPageIndirect => {
                let addr = b as u16;
                assert(mapped(self.bus@, addr) && mapped(self.bus@, wrap_add16(addr, 1)));
                (Operand::Address(self.bus.read_u16(addr)), 0)
            },
            AddressingMode::IndexX => {
                let addr = self.registers.index_x.wrapping_add(b) as u16;
                assert(mapped(self.bus@, addr) && mapped(self.bus@, wrap_add16(addr, 1)));
                (Operand::Address(self.bus.read_u16(addr)), 0)
            },
            _ => {
                let zpl = b as u16;
                assert(mapped(self.bus@, zpl) && mapped(self.bus@, wrap_add16(zpl, 1)));
                let addr = self.bus.read_u16(zpl);
                let result = addr.wrapping_add(self.registers.index_y as u16);
                assert(addr >> 8 == addr / 256 && result >> 8 == result / 256) by (bit_vector);
                let extra_cycles: usize = if addr >> 8 != result >> 8 { 1 } else { 0 };
                (Operand::Address(result), extra_cycles)
            },
        }
    }

    fn arg_indirect(&mut self, mode: AddressingMode) -> (r: (Operand, usize))
        requires
            operand_bytes_mapped(old(self).registers, old(self).bus@, mode),
            mode == AddressingMode::Indirect || mode == AddressingMode::AbsXIndirect,
        ensures
            r == operand_spec(old(self).registers, old(self).bus@, mode),
            final(self).registers == (Registers {
                pc: wrap_add16(old(self).registers.pc, operand_length(mode) as int),
                ..old(self).registers
            }),
            final(self).bus@ == old(self).bus@,
            final(self).stack_frame@ == old(self).stack_frame@,
            final(self).execution_state == old(self).execution_state,
            final(self).breakpoints@ == old(self).breakpoints@,
    {
        let addr = self.pc_read_u16();
        let target = if mode == AddressingMode::Indirect {
            addr
        } else {
            addr.wrapping_add(self.registers.index_x as u16)
        };
        assert(mapped(self.bus@, target) && mapped(self.bus@, wrap_add16(target, 1)));
        (Operand::Address(self.bus.read_u16(target)), 0)
    }

    fn arg_relative(&mut self, mode: AddressingMode) -> (r: (Operand, usize))
        requires
            operand_bytes_mapped(old(self).registers, old(self).bus@, mode),
            mode == AddressingMode::Relative,
        ensures
            r == operand_spec(old(self).registers, old(self).bus@, mode),
            final(self).registers == (Registers {
                pc: wrap_add16(old(self).registers.pc, operand_length(mode) as int),
                ..old(self).registers
            }),
            final(self).bus@ == old(self).bus@,
            final(self).stack_frame@ == old(self).stack_frame@,
            final(self).execution_state == old(self).execution_state,
            final(self).breakpoints@ == old(self).breakpoints@,
    {
        let operand = self.pc_read_u8();
        let result = if operand < 128 {
            self.registers.pc.wrapping_add(operand as u16)
        } else {
            self.registers.pc.wrapping_sub(256 - operand as u16)
        };
        (Operand::Address(result), 0)
    }

    fn arg_zero_page_rel(&mut self, mode: AddressingMode) -> (r: (Operand, usize))
        requires
            operand_bytes_mapped(old(self).registers, old(self).bus@, mode),
            mode == AddressingMode::ZeroPageRel,
        ensures
            r == operand_spec(old(self).registers, old(self).bus@, mode),
            final(self).registers == (Registers {
                pc: wrap_add16(old(self).registers.pc, operand_length(mode) as int),
                ..old(self).registers
            }),
            final(self).bus@ == old(self).bus@,
            final(self).stack_frame@ == old(self).stack_frame@,
            final(self).execution_state == old(self).execution_state,
            final(self).breakpoints@ == old(self).breakpoints@,
    {
        let zp = self.pc_read_u8();
        assert(mapped(self.bus@, zp as u16));
        let val = self.bus.read(zp as u16);
        let base = self.registers.pc.wrapping_add(1);
        let offset = self.pc_read_u8();
        let result = if offset < 128 {
            base.wrapping_add(offset as u16)
        } else {
            base.wrapping_sub(256 - offset as u16)
        };
        (Operand::ZeroPageRel(val, result), 0)
    }

    /// Pushes a byte on the stack page and decrements the stack pointer (wrapping).
    pub fn push_sp(&mut self, value: u8)
        requires
            mapped(old(self).bus@, stack_address(old(self).registers.sp)),
        ensures
            final(self).bus@ == bus_write(old(self).bus@, stack_address(old(self).registers.sp), value),
            final(self).registers == (Registers {
                sp: wrap8(old(self).registers.sp as int - 1),
                ..old(self).registers
            }),
            same_map(old(self).bus@, final(self).bus@),
            final(self).stack_frame@ == old(self).stack_frame@,
            final(self).execution_state == old(self).execution_state,
            final(self).breakpoints@ == old(self).breakpoints@,
    {
        let addr = 0x100 + self.registers.sp as u16;
        assert(mapped(self.bus@, addr));
        self.bus.write(addr, value);
        proof {
            lemma_write_same_map(old(self).bus@, addr, value);
        }
        self.registers.sp = self.registers.sp.wrapping_sub(1);
    }

    /// Increments the stack pointer (wrapping) and pulls the byte it then designates.
    pub fn pop_sp(&mut self) -> (val: u8)
        requires
            mapped(old(self).bus@, stack_address(wrap8(old(self).registers.sp + 1))),
        ensures
            final(self).registers == (Registers {
                sp: wrap8(old(self).registers.sp as int + 1),
                ..old(self).registers
            }),
            val == bus_read(old(self).bus@, stack_address(final(self).registers.sp)),
            final(self).bus@ == old(self).bus@,
            final(self).stack_frame@ == old(self).stack_frame@,
            final(self).execution_state == old(self).execution_state,
            final(self).breakpoints@ == old(self).breakpoints@,
    {
        self.registers.sp = self.registers.sp.wrapping_add(1);
        let addr = 0x100 + self.registers.sp as u16;
        assert(mapped(self.bus@, addr));
        self.bus.read(addr)
    }

    /// Pushes a word, high byte first.
    pub fn push_sp_u16(&mut self, value: u16)
        requires
            mapped(old(self).bus@, stack_address(old(self).registers.sp)),
            mapped(old(self).bus@, stack_address(wrap8(old(self).registers.sp - 1))),
        ensures
            ({
                let sp = old(self).registers.sp;
                let sp1 = wrap8(sp as int - 1);
                final(self).bus@ == bus_write(
                    bus_write(old(self).bus@, stack_address(sp), (value / 256) as u8),
                    stack_address(sp1),
                    (value % 256) as u8,
                )
            }),
            final(self).registers == (Registers {
                sp: wrap8(old(self).registers.sp as int - 2),
                ..old(self).registers
            }),
            same_map(old(self).bus@, final(self).bus@),
            final(self).stack_frame@ == old(self).stack_frame@,
            final(self).execution_state == old(self).execution_state,
            final(self).breakpoints@ == old(self).breakpoints@,
    {
        assert((value >> 8) as u8 == (value / 256) as u8 && value as u8 == (value % 256) as u8)
            by (bit_vector);
        self.push_sp((value >> 8) as u8);
        self.push_sp(value as u8);
    }

    /// Pulls a word, low byte first.
    pub fn pop_sp_u16(&mut self) -> (val: u16)
        requires
            mapped(old(self).bus@, stack_address(wrap8(old(self).registers.sp + 1))),
            mapped(old(self).bus@, stack_address(wrap8(old(self).registers.sp + 2))),
        ensures
            ({
                let sp1 = wrap8(old(self).registers.sp as int + 1);
                let sp2 = wrap8(old(self).registers.sp as int + 2);
                val == (bus_read(old(self).bus@, stack_address(sp2)) as int * 256 + bus_read(
                    old(self).bus@,
                    stack_address(sp1),
                ) as int) as u16
            }),
            final(self).registers == (Registers {
                sp: wrap8(old(self).registers.sp as int + 2),
                ..old(self).registers
            }),
            final(self).bus@ == old(self).bus@,
            final(self).stack_frame@ == old(self).stack_frame@,
            final(self).execution_state == old(self).execution_state,
            final(self).breakpoints@ == old(self).breakpoints@,
    {
        let lo = self.pop_sp();
        let hi = self.pop_sp();
        let v = ((hi as u16) << 8) | lo as u16;
        assert(v == hi as int * 256 + lo as int) by (bit_vector)
            requires
                v == ((hi as u16) << 8u16) | lo as u16,
        ;
        v
    }
}

} // verus!
