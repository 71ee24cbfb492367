use vstd::prelude::*;

use crate::cpu::mos6502::alu::{adc_carry, adc_decimal, adc_overflow, adc_result, decimal_nibble,
    hi_nibble, lemma_nibble_compose, lemma_nibbles, lo_nibble};
use crate::cpu::mos6502::bus::{
    bus_read, bus_read_u16, bus_write, lemma_read_after_write, lemma_same_shape_mapped, lemma_writable_after_write,
    lemma_write_same_map, lemma_write_same_shape, mapped, same_map, word_mapped, writable, wrap8, wrap_add16, Bus,
    SlaveView,
};
use crate::cpu::mos6502::opcodes::{decode_instruction, AddressingMode, lemma_opcode_table_consistent, opcode_table, operand_length, Instruction};
use crate::cpu::mos6502::state::{
    operand_bytes_mapped, operand_spec,
    lemma_status_byte_bits, registers_zero, signed8, stack_address, status_byte_spec, status_from_byte_spec, Operand,
    Registers, State, Status,
};
use crate::cpu::InterruptSource;
use crate::errors::Error;
use crate::targets::ExecutionState;

pub mod alu;
pub mod bus;
pub mod debugger;
pub mod host;
pub mod opcodes;
pub mod state;

verus! {

/// The vector the reset sequence loads the program counter from.
pub const VECTOR_RESET: u16 = 0xfffc;

/// The vector taken on a non-maskable interrupt.
pub const VECTOR_NMI: u16 = 0xfffa;

/// The vector taken on an interrupt request and on BRK.
pub const VECTOR_IRQ: u16 = 0xfffe;

/// What the host asked the processor's run loop to do next.
#[derive(Debug, Clone, Copy, PartialEq, Eq, Structural)]
pub enum ExecutionRequest {
    Idle,
    Halt,
    Resume,
    ForceBreak,
    Shutdown,
}

/// The processor model: the original NMOS 6502 or the WDC 65C02.
#[derive(Debug, Clone, Copy, PartialEq, Eq, Structural)]
pub enum Variant {
    Original,
    Wdc65c02,
}

/// The register a load instruction fills.
#[derive(Debug, Clone, Copy, PartialEq, Eq, Structural)]
pub enum LoadTarget {
    Accumulator,
    IndexX,
    IndexY,
}

/// Everything an instruction step reads or changes.
#[verifier::ext_equal]
pub struct CpuView {
    pub registers: Registers,
    pub bus: Seq<SlaveView>,
    pub stack_frame: Seq<u16>,
    pub cycles: u64,
    pub request: ExecutionRequest,
    pub irq: Seq<InterruptSource>,
    pub nmi: Seq<InterruptSource>,
    pub nmi_previous_cycle: bool,
    pub execution_state: ExecutionState,
    pub breakpoints: Seq<u16>,
    pub variant: Variant,
}

/// A value that a 64-bit counter reaches by adding a small amount, wrapping past the top.
pub open spec fn wrap64(x: int) -> u64 {
    if x > u64::MAX {
        (x - 0x1_0000_0000_0000_0000int) as u64
    } else {
        x as u64
    }
}

/// The state with other registers.
pub open spec fn with_registers(c: CpuView, r: Registers) -> CpuView {
    CpuView { registers: r, ..c }
}

/// The state with other flags.
pub open spec fn with_status(c: CpuView, s: Status) -> CpuView {
    CpuView { registers: Registers { status: s, ..c.registers }, ..c }
}

/// Flags with negative and zero set from a result.
pub open spec fn set_nz(s: Status, v: u8) -> Status {
    Status { negative: v >= 128, zero: v == 0, ..s }
}

/// The state after `n` more cycles.
pub open spec fn add_cycles(c: CpuView, n: int) -> CpuView {
    CpuView { cycles: wrap64(c.cycles + n), ..c }
}

/// The state with the program counter set.
pub open spec fn with_pc(c: CpuView, pc: u16) -> CpuView {
    CpuView { registers: Registers { pc, ..c.registers }, ..c }
}

/// Whether a raise of an interrupt line came from another device than `source`.
pub open spec fn other_source(source: InterruptSource) -> spec_fn(InterruptSource) -> bool {
    |s: InterruptSource| s != source
}

/// Whether an operand that names an address names a mapped one.
pub open spec fn operand_mapped(bus: Seq<SlaveView>, arg: Operand) -> bool {
    arg matches Operand::Address(a) ==> mapped(bus, a)
}

/// Whether the stack byte `k` places from the stack pointer is mapped.
pub open spec fn stack_mapped(c: CpuView, k: int) -> bool {
    mapped(c.bus, stack_address(wrap8(c.registers.sp + k)))
}

/// Whether entering an interrupt handler reaches mapped bytes only: the three stack bytes
/// it pushes and the vector it loads.
pub open spec fn entry_mapped(c: CpuView, vector: u16) -> bool {
    &&& stack_mapped(c, 0)
    &&& stack_mapped(c, -1)
    &&& stack_mapped(c, -2)
    &&& word_mapped(c.bus, vector)
}

/// The state with every raise of the maskable interrupt line by `source` withdrawn.
pub open spec fn irq_released(c: CpuView, source: InterruptSource) -> CpuView {
    CpuView { irq: c.irq.filter(other_source(source)), ..c }
}

/// The state with the bus changed by a write.
pub open spec fn with_write(c: CpuView, address: u16, value: u8) -> CpuView {
    CpuView { bus: bus_write(c.bus, address, value), ..c }
}

/// Push a byte: it is written at the stack address and the stack pointer decrements.
pub open spec fn push_spec(c: CpuView, value: u8) -> CpuView {
    CpuView {
        bus: bus_write(c.bus, stack_address(c.registers.sp), value),
        registers: Registers { sp: wrap8(c.registers.sp - 1), ..c.registers },
        ..c
    }
}

/// Pull a byte: the stack pointer increments and the byte it designates is read.
pub open spec fn pop_spec(c: CpuView) -> (CpuView, u8) {
    let sp = wrap8(c.registers.sp + 1);
    (CpuView { registers: Registers { sp, ..c.registers }, ..c }, bus_read(c.bus, stack_address(sp)))
}

/// Push a word, high byte first.
pub open spec fn push16_spec(c: CpuView, value: u16) -> CpuView {
    push_spec(push_spec(c, (value / 256) as u8), (value % 256) as u8)
}

/// Pull a word, low byte first.
pub open spec fn pop16_spec(c: CpuView) -> (CpuView, u16) {
    let (c1, lo) = pop_spec(c);
    let (c2, hi) = pop_spec(c1);
    (c2, (hi as int * 256 + lo as int) as u16)
}

/// The byte an operand names: an immediate value or the byte at an address.
pub open spec fn operand_byte(c: CpuView, arg: Operand) -> Option<u8> {
    match arg {
        Operand::Immediate(v) => Some(v as u8),
        Operand::Address(a) => Some(bus_read(c.bus, a)),
        _ => None,
    }
}

/// The result of an unsupported operand: nothing changes.
pub open spec fn unsupported(c: CpuView) -> (CpuView, Result<(), Error>) {
    (c, Err(Error::OperandUnsupported))
}

/// Load a register and set negative and zero from the value.
pub open spec fn ld_spec(c: CpuView, arg: Operand, dest: LoadTarget) -> (CpuView, Result<(), Error>) {
    match operand_byte(c, arg) {
        Some(v) => {
            let r = c.registers;
            let r1 = match dest {
                LoadTarget::Accumulator => Registers { accumulator: v, ..r },
                LoadTarget::IndexX => Registers { index_x: v, ..r },
                LoadTarget::IndexY => Registers { index_y: v, ..r },
            };
            (with_registers(c, Registers { status: set_nz(r1.status, v), ..r1 }), Ok(()))
        },
        None => unsupported(c),
    }
}

/// Add a value to the accumulator with carry, in decimal or binary mode.
pub open spec fn adc_value_spec(c: CpuView, value: u8, subtraction: bool) -> CpuView {
    let r = c.registers;
    let a = r.accumulator;
    if r.status.decimal_mode {
        let (res, carry) = adc_decimal(a, value, r.status.carry, subtraction);
        with_registers(
            c,
            Registers {
                accumulator: res,
                status: set_nz(Status { carry, overflow: false, ..r.status }, res),
                ..r
            },
        )
    } else {
        let res = adc_result(a, value, r.status.carry);
        with_registers(
            c,
            Registers {
                accumulator: res,
                status: set_nz(
                    Status {
                        carry: adc_carry(a, value, r.status.carry),
                        overflow: adc_overflow(a, value, r.status.carry),
                        ..r.status
                    },
                    res,
                ),
                ..r
            },
        )
    }
}

/// The 65C02 takes one more cycle for ADC and SBC in decimal mode.
pub open spec fn decimal_penalty(c: CpuView) -> CpuView {
    if c.registers.status.decimal_mode && c.variant == Variant::Wdc65c02 {
        add_cycles(c, 1)
    } else {
        c
    }
}

/// ADC: add the operand and the carry to the accumulator.
pub open spec fn adc_spec(c: CpuView, arg: Operand) -> (CpuView, Result<(), Error>) {
    let c1 = decimal_penalty(c);
    match operand_byte(c1, arg) {
        Some(v) => (adc_value_spec(c1, v, false), Ok(())),
        None => unsupported(c1),
    }
}

/// SBC: subtract the operand and the borrow from the accumulator, by adding its complement.
pub open spec fn sbc_spec(c: CpuView, arg: Operand) -> (CpuView, Result<(), Error>) {
    let c1 = decimal_penalty(c);
    match operand_byte(c1, arg) {
        Some(v) => (adc_value_spec(c1, (255 - v) as u8, true), Ok(())),
        None => unsupported(c1),
    }
}

/// CMP, CPX, CPY: compare a register with the operand.
pub open spec fn compare_spec(c: CpuView, arg: Operand, a: u8) -> (CpuView, Result<(), Error>) {
    match operand_byte(c, arg) {
        Some(b) => {
            let diff = wrap8(a - b);
            (with_status(c, set_nz(Status { carry: b <= a, ..c.registers.status }, diff)), Ok(()))
        },
        None => unsupported(c),
    }
}

/// INC and DEC on memory or the accumulator.
pub open spec fn step_spec(c: CpuView, arg: Operand, delta: int) -> (CpuView, Result<(), Error>) {
    match arg {
        Operand::Address(addr) => {
            let v = wrap8(bus_read(c.bus, addr) + delta);
            (with_status(with_write(c, addr, v), set_nz(c.registers.status, v)), Ok(()))
        },
        Operand::Accumulator => {
            let v = wrap8(c.registers.accumulator + delta);
            (with_registers(c, Registers { accumulator: v, status: set_nz(c.registers.status, v), ..c.registers }), Ok(()))
        },
        _ => unsupported(c),
    }
}

/// Take a branch: one extra cycle, or two when the target is on another page.
pub open spec fn branch_spec(c: CpuView, arg: Operand) -> (CpuView, Result<(), Error>) {
    match arg {
        Operand::Address(addr) => {
            let extra = if addr / 256 != c.registers.pc / 256 { 2int } else { 1int };
            (with_pc(add_cycles(c, extra), addr), Ok(()))
        },
        _ => unsupported(c),
    }
}

/// A conditional branch: taken when the condition holds, otherwise nothing happens.
pub open spec fn cond_branch_spec(c: CpuView, cond: bool, arg: Operand) -> (CpuView, Result<(), Error>) {
    if cond {
        branch_spec(c, arg)
    } else {
        (c, Ok(()))
    }
}

/// The four shifts and rotates.
#[derive(Debug, Clone, Copy, PartialEq, Eq, Structural)]
pub enum ShiftKind {
    Lsr,
    Asl,
    Rol,
    Ror,
}

/// A shifted or rotated byte and the carry out.
pub open spec fn shift_result(kind: ShiftKind, v: u8, carry: bool) -> (u8, bool) {
    match kind {
        ShiftKind::Lsr => ((v / 2) as u8, v % 2 == 1),
        ShiftKind::Asl => (wrap8(v * 2 - (if v >= 128 { 256int } else { 0int })), v >= 128),
        ShiftKind::Rol => (wrap8(v * 2 + (if carry { 1int } else { 0int })), v >= 128),
        ShiftKind::Ror => (((v / 2) + (if carry { 128int } else { 0int })) as u8, v % 2 == 1),
    }
}

/// LSR, ASL, ROL, ROR on memory or the accumulator.
pub open spec fn shift_spec(c: CpuView, arg: Operand, kind: ShiftKind) -> (CpuView, Result<(), Error>) {
    let st = c.registers.status;
    match arg {
        Operand::Address(addr) => {
            let (v, carry) = shift_result(kind, bus_read(c.bus, addr), st.carry);
            (with_status(with_write(c, addr, v), set_nz(Status { carry, ..st }, v)), Ok(()))
        },
        Operand::Accumulator => {
            let (v, carry) = shift_result(kind, c.registers.accumulator, st.carry);
            (with_registers(c, Registers { accumulator: v, status: set_nz(Status { carry, ..st }, v), ..c.registers }), Ok(()))
        },
        _ => unsupported(c),
    }
}

/// The three logic operations.
#[derive(Debug, Clone, Copy, PartialEq, Eq, Structural)]
pub enum LogicKind {
    And,
    Ora,
    Eor,
}

/// The result of a logic operation.
pub open spec fn logic_result(kind: LogicKind, a: u8, b: u8) -> u8 {
    match kind {
        LogicKind::And => a & b,
        LogicKind::Ora => a | b,
        LogicKind::Eor => a ^ b,
    }
}

/// AND, ORA, EOR into the accumulator.
pub open spec fn logic_spec(c: CpuView, arg: Operand, kind: LogicKind) -> (CpuView, Result<(), Error>) {
    match operand_byte(c, arg) {
        Some(b) => {
            let v = logic_result(kind, c.registers.accumulator, b);
            (with_registers(c, Registers { accumulator: v, status: set_nz(c.registers.status, v), ..c.registers }), Ok(()))
        },
        None => unsupported(c),
    }
}

/// BIT: zero from operand AND accumulator; negative and overflow from bits 7 and 6 of the
/// operand, except with an immediate operand.
pub open spec fn bit_spec(c: CpuView, arg: Operand) -> (CpuView, Result<(), Error>) {
    match operand_byte(c, arg) {
        Some(v) => {
            let st = c.registers.status;
            let st1 = if arg is Immediate {
                st
            } else {
                Status { negative: v >= 128, overflow: (v / 64) % 2 == 1, ..st }
            };
            (with_status(c, Status { zero: v & c.registers.accumulator == 0, ..st1 }), Ok(()))
        },
        None => unsupported(c),
    }
}

/// Pull a register from the stack and set negative and zero from it.
pub open spec fn pull_spec(c: CpuView, dest: LoadTarget) -> CpuView {
    let (c1, v) = pop_spec(c);
    let r = c1.registers;
    let r1 = match dest {
        LoadTarget::Accumulator => Registers { accumulator: v, ..r },
        LoadTarget::IndexX => Registers { index_x: v, ..r },
        LoadTarget::IndexY => Registers { index_y: v, ..r },
    };
    with_registers(c1, Registers { status: set_nz(r1.status, v), ..r1 })
}

/// PHP pushes the status byte with the break bit set.
pub open spec fn php_spec(c: CpuView) -> CpuView {
    push_spec(c, status_byte_spec(c.registers.status) | 0x10u8)
}

/// PLP and the first half of RTI: the flags come from the pulled byte.
pub open spec fn plp_spec(c: CpuView) -> CpuView {
    let (c1, v) = pop_spec(c);
    with_status(c1, status_from_byte_spec(v))
}

/// RTI: pull the flags, then the program counter.
pub open spec fn rti_spec(c: CpuView) -> CpuView {
    let (c2, pc) = pop16_spec(plp_spec(c));
    with_pc(c2, pc)
}

/// RTS: drop the innermost recorded call, pull the return address and continue after it.
pub open spec fn rts_spec(c: CpuView) -> CpuView {
    let c1 = CpuView { stack_frame: if c.stack_frame.len() > 0 { c.stack_frame.drop_last() } else { c.stack_frame }, ..c };
    let (c2, pc) = pop16_spec(c1);
    with_pc(c2, wrap_add16(pc, 1))
}

/// JSR: record the call, push the address of its last byte and jump.
pub open spec fn jsr_spec(c: CpuView, arg: Operand, current_pc: u16) -> (CpuView, Result<(), Error>) {
    match arg {
        Operand::Address(addr) => {
            let c1 = CpuView { stack_frame: c.stack_frame.push(current_pc), ..c };
            (with_pc(push16_spec(c1, wrap_add16(c.registers.pc, -1)), addr), Ok(()))
        },
        _ => unsupported(c),
    }
}

/// JMP.
pub open spec fn jmp_spec(c: CpuView, arg: Operand) -> (CpuView, Result<(), Error>) {
    match arg {
        Operand::Address(addr) => (with_pc(c, addr), Ok(())),
        _ => unsupported(c),
    }
}

/// Entering an interrupt handler: the vector is loaded, interrupts are disabled and, on the
/// 65C02, decimal mode is cleared.
pub open spec fn enter_handler(c: CpuView, vector: u16, clear_brk: bool) -> CpuView {
    let st = c.registers.status;
    let st1 = Status { irq_disable: true, brk_command: if clear_brk { false } else { st.brk_command }, ..st };
    let st2 = if c.variant == Variant::Wdc65c02 { Status { decimal_mode: false, ..st1 } } else { st1 };
    with_registers(c, Registers { pc: bus_read_u16(c.bus, vector), status: st2, ..c.registers })
}

/// BRK: push the address after the padding byte and the flags with break set, then take
/// the IRQ vector.
pub open spec fn brk_spec(c: CpuView) -> CpuView {
    let c1 = push16_spec(c, wrap_add16(c.registers.pc, 1));
    let c2 = push_spec(c1, status_byte_spec(c.registers.status) | 0x10u8);
    enter_handler(c2, VECTOR_IRQ, false)
}

/// STA, STX, STY.
pub open spec fn store_spec(c: CpuView, arg: Operand, value: u8) -> (CpuView, Result<(), Error>) {
    match arg {
        Operand::Address(addr) => (with_write(c, addr, value), Ok(())),
        _ => unsupported(c),
    }
}

/// TSB and TRB: zero from operand AND accumulator, then set or reset the accumulator's bits.
pub open spec fn test_bits_spec(c: CpuView, arg: Operand, set: bool) -> (CpuView, Result<(), Error>) {
    match arg {
        Operand::Address(addr) => {
            let a = c.registers.accumulator;
            let v = bus_read(c.bus, addr);
            let nv = if set { v | a } else { v & !a };
            (with_write(with_status(c, Status { zero: v & a == 0, ..c.registers.status }), addr, nv), Ok(()))
        },
        _ => unsupported(c),
    }
}

/// BBR and BBS: branch when the masked bit of the zero page byte is clear (or set).
pub open spec fn branch_bit_spec(c: CpuView, arg: Operand, bit: u8, when_set: bool) -> (CpuView, Result<(), Error>) {
    match arg {
        Operand::ZeroPageRel(val, target) => {
            let taken = if when_set { val & bit == bit } else { val & bit == 0 };
            (if taken { with_pc(c, target) } else { c }, Ok(()))
        },
        _ => (c, Err(Error::InvalidAddressingMode)),
    }
}

/// SMB and RMB: set or reset a bit of a zero page byte.
pub open spec fn modify_bit_spec(c: CpuView, arg: Operand, bit: u8, set: bool) -> (CpuView, Result<(), Error>) {
    match arg {
        Operand::Address(addr) => {
            let v = bus_read(c.bus, addr);
            (with_write(c, addr, if set { v | bit } else { v & !bit }), Ok(()))
        },
        _ => (c, Err(Error::InvalidAddressingMode)),
    }
}

/// Register transfers that set negative and zero from the value moved.
pub open spec fn transfer_spec(c: CpuView, value: u8, dest: LoadTarget) -> CpuView {
    let r = c.registers;
    let r1 = match dest {
        LoadTarget::Accumulator => Registers { accumulator: value, ..r },
        LoadTarget::IndexX => Registers { index_x: value, ..r },
        LoadTarget::IndexY => Registers { index_y: value, ..r },
    };
    with_registers(c, Registers { status: set_nz(r1.status, value), ..r1 })
}

struct IrqState {
    irq: Vec<InterruptSource>,
    nmi: Vec<InterruptSource>,
    nmi_previous_cycle: bool,
}

/// A 6502 or 65C02 processor attached to a bus.
pub struct Mos6502 {
    state: State,
    variant: Variant,
    cycle_count: u64,
    irq_state: IrqState,
    execution_request: ExecutionRequest,
    clock_rate_hz: u64,
}

impl View for Mos6502 {
    type V = CpuView;

    closed spec fn view(&self) -> CpuView {
        CpuView {
            registers: self.state.registers,
            bus: self.state.bus@,
            stack_frame: self.state.stack_frame@,
            cycles: self.cycle_count,
            request: self.execution_request,
            irq: self.irq_state.irq@,
            nmi: self.irq_state.nmi@,
            nmi_previous_cycle: self.irq_state.nmi_previous_cycle,
            execution_state: self.state.execution_state,
            breakpoints: self.state.breakpoints@,
            variant: self.variant,
        }
    }
}

} // verus!

verus! {

/// The 16-bit value of a little-endian pair of bytes.
pub open spec fn word(lo: u8, hi: u8) -> u16 {
    (hi as int * 256 + lo as int) as u16
}

impl Mos6502 {
    /// A stopped processor with zeroed registers on `bus`, clocked at `clock_rate_hz`.
    pub fn new(bus: Bus, clock_rate_hz: u64, variant: Variant) -> (cpu: Mos6502)
        ensures
            cpu@ == (CpuView {
                registers: registers_zero(),
                bus: bus@,
                stack_frame: Seq::empty(),
                cycles: 0,
                request: ExecutionRequest::Idle,
                irq: Seq::empty(),
                nmi: Seq::empty(),
                nmi_previous_cycle: false,
                execution_state: ExecutionState::Stopped,
                breakpoints: Seq::empty(),
                variant,
            }),
            cpu.clock_rate() == clock_rate_hz,
    {
        Mos6502 {
            state: State::new(bus),
            variant,
            cycle_count: 0,
            irq_state: IrqState { irq: Vec::new(), nmi: Vec::new(), nmi_previous_cycle: false },
            execution_request: ExecutionRequest::Idle,
            clock_rate_hz,
        }
    }

    /// The clock rate the processor was created with.
    pub closed spec fn clock_rate(&self) -> u64 {
        self.clock_rate_hz
    }

    /// The clock rate, in Hz, the processor was created with.
    pub fn clock_rate_hz(&self) -> (r: u64)
        ensures
            r == self.clock_rate(),
    {
        self.clock_rate_hz
    }

    /// The processor model.
    pub fn variant(&self) -> (v: Variant)
        ensures
            v == self@.variant,
    {
        self.variant
    }

    /// The registers.
    pub fn registers(&self) -> (r: Registers)
        ensures
            r == self@.registers,
    {
        self.state.registers
    }

    /// Replaces the registers.
    pub fn set_registers(&mut self, registers: Registers)
        ensures
            final(self)@ == with_registers(old(self)@, registers),
            final(self).clock_rate() == old(self).clock_rate(),
    {
        self.state.registers = registers;
    }

    /// Sets the program counter.
    pub fn set_pc(&mut self, pc: u16) -> (r: Result<(), Error>)
        ensures
            final(self)@ == with_pc(old(self)@, pc),
            r is Ok,
            final(self).clock_rate() == old(self).clock_rate(),
    {
        self.state.registers.pc = pc;
        Ok(())
    }

    /// The number of cycles executed since the last reset.
    pub fn get_cycle_count(&self) -> (r: u64)
        ensures
            r == self@.cycles,
    {
        self.cycle_count
    }

    /// Adds cycles to the cycle counter, wrapping past the top.
    pub fn inc_cycles(&mut self, num: u64)
        ensures
            final(self)@ == add_cycles(old(self)@, num as int),
            final(self).clock_rate() == old(self).clock_rate(),
    {
        self.cycle_count = self.cycle_count.wrapping_add(num);
    }

    /// The pending run loop request.
    pub fn execution_request(&self) -> (r: ExecutionRequest)
        ensures
            r == self@.request,
    {
        self.execution_request
    }

    /// Replaces the pending run loop request.
    pub fn set_execution_request(&mut self, request: ExecutionRequest)
        ensures
            final(self)@ == (CpuView { request, ..old(self)@ }),
            final(self).clock_rate() == old(self).clock_rate(),
    {
        self.execution_request = request;
    }

    /// Asks the run loop to shut down.
    pub fn stop(&mut self) -> (r: Result<(), Error>)
        ensures
            final(self)@ == (CpuView { request: ExecutionRequest::Shutdown, ..old(self)@ }),
            r is Ok,
            final(self).clock_rate() == old(self).clock_rate(),
    {
        self.execution_request = ExecutionRequest::Shutdown;
        Ok(())
    }

    /// Asks the run loop to stop before the next instruction, as a breakpoint does.
    pub fn force_break(&mut self) -> (r: Result<(), Error>)
        ensures
            final(self)@ == (CpuView { request: ExecutionRequest::ForceBreak, ..old(self)@ }),
            r is Ok,
            final(self).clock_rate() == old(self).clock_rate(),
    {
        self.execution_request = ExecutionRequest::ForceBreak;
        Ok(())
    }

    /// Asks the run loop to halt.
    pub fn halt(&mut self) -> (r: Result<(), Error>)
        ensures
            final(self)@ == (CpuView { request: ExecutionRequest::Halt, ..old(self)@ }),
            r is Ok,
            final(self).clock_rate() == old(self).clock_rate(),
    {
        self.execution_request = ExecutionRequest::Halt;
        Ok(())
    }

    /// Asks the run loop to resume.
    pub fn run(&mut self) -> (r: Result<(), Error>)
        ensures
            final(self)@ == (CpuView { request: ExecutionRequest::Resume, ..old(self)@ }),
            r is Ok,
            final(self).clock_rate() == old(self).clock_rate(),
    {
        self.execution_request = ExecutionRequest::Resume;
        Ok(())
    }

    /// Whether the processor is running or stopped.
    pub fn execution_state(&self) -> (r: ExecutionState)
        ensures
            r == self@.execution_state,
    {
        self.state.execution_state
    }

    /// Marks the processor running or stopped.
    pub fn set_execution_state(&mut self, execution_state: ExecutionState)
        ensures
            final(self)@ == (CpuView { execution_state, ..old(self)@ }),
            final(self).clock_rate() == old(self).clock_rate(),
    {
        self.state.execution_state = execution_state;
    }

    /// Raises an interrupt line on behalf of `source`.
    pub fn irq_trigger(&mut self, nmi: bool, source: InterruptSource)
        ensures
            final(self)@ == (if nmi {
                CpuView { nmi: old(self)@.nmi.push(source), ..old(self)@ }
            } else {
                CpuView { irq: old(self)@.irq.push(source), ..old(self)@ }
            }),
            final(self).clock_rate() == old(self).clock_rate(),
    {
        if nmi {
            self.irq_state.nmi.push(source);
        } else {
            self.irq_state.irq.push(source);
        }
    }

    /// Releases every raise of an interrupt line by `source`.
    pub fn irq_release(&mut self, nmi: bool, source: InterruptSource)
        ensures
            final(self)@ == (if nmi {
                CpuView { nmi: old(self)@.nmi.filter(other_source(source)), ..old(self)@ }
            } else {
                irq_released(old(self)@, source)
            }),
            final(self).clock_rate() == old(self).clock_rate(),
    {
        if nmi {
            let kept = remove_source(&self.irq_state.nmi, source);
            self.irq_state.nmi = kept;
        } else {
            let kept = remove_source(&self.irq_state.irq, source);
            self.irq_state.irq = kept;
        }
    }

    /// Whether the program counter is at a breakpoint.
    pub fn at_breakpoint(&self) -> (r: bool)
        ensures
            r == self@.breakpoints.contains(self@.registers.pc),
    {
        let pc = self.state.registers.pc;
        let n = self.state.breakpoints.len();
        let mut i: usize = 0;
        while i < n
            invariant
                i <= n,
                n == self.state.breakpoints@.len(),
                pc == self.state.registers.pc,
                forall|j: int| 0 <= j < i ==> self.state.breakpoints@[j] != pc,
            decreases n - i,
        {
            if self.state.breakpoints[i] == pc {
                assert(self.state.breakpoints@[i as int] == pc);
                return true;
            }
            i += 1;
        }
        false
    }

    /// Adds an execution breakpoint (the address is truncated to 16 bits).
    pub fn add_breakpoint(&mut self, address: usize) -> (r: Result<(), Error>)
        ensures
            final(self)@ == (CpuView { breakpoints: old(self)@.breakpoints.push(address as u16), ..old(self)@ }),
            r is Ok,
            final(self).clock_rate() == old(self).clock_rate(),
    {
        self.state.breakpoints.push(address as u16);
        Ok(())
    }

    /// The execution breakpoints, in the order they were added.
    pub fn list_breakpoints(&self) -> (r: Result<Vec<usize>, Error>)
        ensures
            r matches Ok(v) && v@ == self@.breakpoints.map_values(|b: u16| b as usize),
    {
        let mut out: Vec<usize> = Vec::new();
        let n = self.state.breakpoints.len();
        let mut i: usize = 0;
        while i < n
            invariant
                i <= n,
                n == self.state.breakpoints@.len(),
                out@ == self.state.breakpoints@.take(i as int).map_values(|b: u16| b as usize),
            decreases n - i,
        {
            out.push(self.state.breakpoints[i] as usize);
            assert(self.state.breakpoints@.take(i + 1) == self.state.breakpoints@.take(i as int).push(self.state.breakpoints@[i as int]));
            i += 1;
        }
        assert(self.state.breakpoints@.take(n as int) == self.state.breakpoints@);
        Ok(out)
    }

    /// Deletes every execution breakpoint at `address`.
    pub fn delete_breakpoints(&mut self, address: usize) -> (r: Result<(), Error>)
        ensures
            final(self)@ == (CpuView {
                breakpoints: old(self)@.breakpoints.filter(|b: u16| b as usize != address),
                ..old(self)@
            }),
            r is Ok,
            final(self).clock_rate() == old(self).clock_rate(),
    {
        let mut kept: Vec<u16> = Vec::new();
        let n = self.state.breakpoints.len();
        let mut i: usize = 0;
        let ghost pred = |b: u16| b as usize != address;
        while i < n
            invariant
                i <= n,
                n == self.state.breakpoints@.len(),
                kept@ == self.state.breakpoints@.take(i as int).filter(pred),
                pred == (|b: u16| b as usize != address),
            decreases n - i,
        {
            let b = self.state.breakpoints[i];
            proof {
                let s = self.state.breakpoints@.take(i + 1);
                assert(s.drop_last() == self.state.breakpoints@.take(i as int));
                assert(s.last() == b);
                reveal(Seq::filter);
            }
            if b as usize != address {
                kept.push(b);
            }
            i += 1;
        }
        assert(self.state.breakpoints@.take(n as int) == self.state.breakpoints@);
        self.state.breakpoints = kept;
        Ok(())
    }

    /// The addresses of the JSR instructions not yet returned from, innermost last.
    pub fn backtrace(&self) -> (r: Result<Vec<usize>, Error>)
        ensures
            r matches Ok(v) && v@ == self@.stack_frame.map_values(|b: u16| b as usize),
    {
        let mut out: Vec<usize> = Vec::new();
        let n = self.state.stack_frame.len();
        let mut i: usize = 0;
        while i < n
            invariant
                i <= n,
                n == self.state.stack_frame@.len(),
                out@ == self.state.stack_frame@.take(i as int).map_values(|b: u16| b as usize),
            decreases n - i,
        {
            out.push(self.state.stack_frame[i] as usize);
            assert(self.state.stack_frame@.take(i + 1) == self.state.stack_frame@.take(i as int).push(self.state.stack_frame@[i as int]));
            i += 1;
        }
        assert(self.state.stack_frame@.take(n as int) == self.state.stack_frame@);
        Ok(out)
    }
}

/// ROL of a byte: the byte shifted left with the carry in bit 0, and bit 7 as carry out.
fn rotate_left(v: u8, carry: bool) -> (r: (u8, bool))
    ensures
        r == shift_result(ShiftKind::Rol, v, carry),
{
    let c = (v & 128) != 0;
    let nv = if carry { (v << 1) | 1 } else { v << 1 };
    assert(c == (v >= 128) && nv as int == (if v >= 128 { v * 2 - 256 } else { v * 2 }) + (if carry { 1int } else { 0int })) by (bit_vector)
        requires
            nv == (if carry { (v << 1u8) | 1u8 } else { v << 1u8 }),
            c == ((v & 128u8) != 0u8),
    ;
    (nv, c)
}

/// ROR of a byte: the byte shifted right with the carry in bit 7, and bit 0 as carry out.
fn rotate_right(v: u8, carry: bool) -> (r: (u8, bool))
    ensures
        r == shift_result(ShiftKind::Ror, v, carry),
{
    let c = (v & 1) != 0;
    let nv = if carry { (v >> 1) | 128 } else { v >> 1 };
    assert(c == (v % 2 == 1) && nv as int == (v / 2) + (if carry { 128int } else { 0int })) by (bit_vector)
        requires
            nv == (if carry { (v >> 1u8) | 128u8 } else { v >> 1u8 }),
            c == ((v & 1u8) != 0u8),
    ;
    (nv, c)
}

/// The sources of `v` other than `source`, in order.
fn remove_source(v: &Vec<InterruptSource>, source: InterruptSource) -> (kept: Vec<InterruptSource>)
    ensures
        kept@ == v@.filter(other_source(source)),
{
    let mut kept: Vec<InterruptSource> = Vec::new();
    let n = v.len();
    let mut i: usize = 0;
    let ghost pred = other_source(source);
    while i < n
        invariant
            i <= n,
            n == v@.len(),
            kept@ == v@.take(i as int).filter(pred),
            pred == other_source(source),
        decreases n - i,
    {
        let s = v[i];
        proof {
            let t = v@.take(i + 1);
            assert(t.drop_last() == v@.take(i as int));
            assert(t.last() == s);
            reveal(Seq::filter);
        }
        if s != source {
            kept.push(s);
        }
        i += 1;
    }
    assert(v@.take(n as int) == v@);
    kept
}

} // verus!

verus! {

impl Mos6502 {
    /// The byte at `address` on the bus.
    fn read_byte(&self, address: u16) -> (v: u8)
        requires
            mapped(self@.bus, address),
        ensures
            v == bus_read(self@.bus, address),
    {
        assert(mapped(self.state.bus@, address));
        self.state.bus.read(address)
    }

    /// The little-endian word at `address` on the bus.
    fn read_word(&self, address: u16) -> (v: u16)
        requires
            word_mapped(self@.bus, address),
        ensures
            v == bus_read_u16(self@.bus, address),
    {
        assert(mapped(self.state.bus@, address) && mapped(self.state.bus@, wrap_add16(address, 1)));
        self.state.bus.read_u16(address)
    }

    /// Writes a byte to the bus.
    fn write_byte(&mut self, address: u16, value: u8)
        requires
            mapped(old(self)@.bus, address),
        ensures
            final(self)@ == with_write(old(self)@, address, value),
            same_map(old(self)@.bus, final(self)@.bus),
            final(self).clock_rate() == old(self).clock_rate(),
    {
        assert(mapped(self.state.bus@, address));
        self.state.bus.write(address, value);
        proof {
            lemma_write_same_map(old(self)@.bus, address, value);
        }
    }

    /// Pushes a byte on the stack.
    fn push(&mut self, value: u8)
        requires
            stack_mapped(old(self)@, 0),
        ensures
            final(self)@ == push_spec(old(self)@, value),
            same_map(old(self)@.bus, final(self)@.bus),
            final(self).clock_rate() == old(self).clock_rate(),
    {
        self.state.push_sp(value);
    }

    /// Pulls a byte from the stack.
    fn pop(&mut self) -> (v: u8)
        requires
            stack_mapped(old(self)@, 1),
        ensures
            (final(self)@, v) == pop_spec(old(self)@),
            same_map(old(self)@.bus, final(self)@.bus),
            final(self).clock_rate() == old(self).clock_rate(),
    {
        self.state.pop_sp()
    }

    /// Pushes a word on the stack, high byte first.
    fn push16(&mut self, value: u16)
        requires
            stack_mapped(old(self)@, 0),
            stack_mapped(old(self)@, -1),
        ensures
            final(self)@ == push16_spec(old(self)@, value),
            same_map(old(self)@.bus, final(self)@.bus),
            final(self).clock_rate() == old(self).clock_rate(),
    {
        self.state.push_sp_u16(value);
    }

    /// Pulls a word from the stack, low byte first.
    fn pop16(&mut self) -> (v: u16)
        requires
            stack_mapped(old(self)@, 1),
            stack_mapped(old(self)@, 2),
        ensures
            (final(self)@, v) == pop16_spec(old(self)@),
            same_map(old(self)@.bus, final(self)@.bus),
            final(self).clock_rate() == old(self).clock_rate(),
    {
        self.state.pop_sp_u16()
    }

    /// The byte an operand names: an immediate value or the byte at an address.
    fn get_operand_addr_imm(&self, arg: &Operand) -> (r: Result<u8, Error>)
        requires
            operand_mapped(self@.bus, *arg),
        ensures
            operand_byte(self@, *arg) matches Some(v) ==> r == Ok::<u8, Error>(v),
            operand_byte(self@, *arg) is None ==> r == Err::<u8, Error>(Error::OperandUnsupported),
    {
        match arg {
            Operand::Address(addr) => Ok(self.read_byte(*addr)),
            Operand::Immediate(val) => Ok(*val as u8),
            _ => Err(Error::OperandUnsupported),
        }
    }

    /// The address an operand names.
    fn get_operand_addr(&self, arg: &Operand) -> (r: Result<u16, Error>)
        ensures
            *arg matches Operand::Address(a) ==> r == Ok::<u16, Error>(a),
            !(*arg is Address) ==> r == Err::<u16, Error>(Error::OperandUnsupported),
    {
        match arg {
            Operand::Address(addr) => Ok(*addr),
            _ => Err(Error::OperandUnsupported),
        }
    }

    /// Negative from bit 7 of a result.
    fn update_negative_flag(&mut self, value: u8)
        ensures
            final(self)@ == with_status(old(self)@, Status { negative: value >= 128, ..old(self)@.registers.status }),
            same_map(old(self)@.bus, final(self)@.bus),
            final(self).clock_rate() == old(self).clock_rate(),
    {
        self.state.registers.status.negative = value >> 7 == 1;
        assert((value >> 7u8 == 1u8) == (value >= 128)) by (bit_vector);
    }

    /// Zero from a result.
    fn update_zero_flag(&mut self, value: u8)
        ensures
            final(self)@ == with_status(old(self)@, Status { zero: value == 0, ..old(self)@.registers.status }),
            same_map(old(self)@.bus, final(self)@.bus),
            final(self).clock_rate() == old(self).clock_rate(),
    {
        self.state.registers.status.zero = value == 0;
    }

    /// Negative and zero from a result.
    fn update_nz(&mut self, value: u8)
        ensures
            final(self)@ == with_status(old(self)@, set_nz(old(self)@.registers.status, value)),
            same_map(old(self)@.bus, final(self)@.bus),
            final(self).clock_rate() == old(self).clock_rate(),
    {
        self.update_negative_flag(value);
        self.update_zero_flag(value);
    }

    /// LDA, LDX, LDY.
    fn instr_ld(&mut self, arg: Operand, dest: LoadTarget) -> (r: Result<(), Error>)
        requires
            operand_mapped(old(self)@.bus, arg),
        ensures
            (final(self)@, r) == ld_spec(old(self)@, arg, dest),
            same_map(old(self)@.bus, final(self)@.bus),
            final(self).clock_rate() == old(self).clock_rate(),
    {
        let value = match arg {
            Operand::Immediate(imm) => imm as u8,
            Operand::Address(addr) => self.read_byte(addr),
            _ => return Err(Error::OperandUnsupported),
        };
        match dest {
            LoadTarget::Accumulator => self.state.registers.accumulator = value,
            LoadTarget::IndexX => self.state.registers.index_x = value,
            LoadTarget::IndexY => self.state.registers.index_y = value,
        }
        self.update_nz(value);
        Ok(())
    }

    /// One BCD digit step of a decimal addition.
    fn add_nibble_with_carry(m: u8, n: u8, carry: bool, subtraction: bool) -> (r: (u8, bool))
        requires
            m < 16,
            n < 16,
        ensures
            r == decimal_nibble(m, n, carry, subtraction),
    {
        let mut result: u8 = m + n;
        if carry {
            result += 1;
        }
        let carry_out = (result & 16) != 0;
        assert(((result & 16u8) != 0u8) == (result >= 16) && (result & 15u8) == (if result >= 16 { (result - 16) as u8 } else { result })) by (bit_vector)
            requires
                result < 32,
        ;
        result &= 0b1111;
        if result > 9 || (!subtraction && carry_out) || (subtraction && !carry_out) {
            if subtraction {
                // the nibble minus six, modulo 16
                let r = if result >= 6 { result - 6 } else { result + 10 };
                (r, carry_out)
            } else {
                Self::nibble_adder(result, 6, carry_out)
            }
        } else {
            (result, carry_out)
        }
    }

    /// Decimal addition of two bytes, digit by digit.
    fn decimal_add(a: u8, value: u8, carry: bool, subtraction: bool) -> (r: (u8, bool))
        ensures
            r == adc_decimal(a, value, carry, subtraction),
    {
        proof {
            lemma_nibbles(a);
            lemma_nibbles(value);
        }
        let m_hi = (a >> 4) & 0b1111;
        let m_lo = a & 0b1111;
        let n_hi = (value >> 4) & 0b1111;
        let n_lo = value & 0b1111;
        let (lo_result, lo_carry) = Self::add_nibble_with_carry(m_lo, n_lo, carry, subtraction);
        let (hi_result, hi_carry) = Self::add_nibble_with_carry(m_hi, n_hi, lo_carry, subtraction);
        assert(hi_result < 16 && lo_result < 16);
        (hi_result * 16 + lo_result, hi_carry)
    }

    /// Adds two nibbles, keeping four bits and carrying out past 15.
    fn nibble_adder(m: u8, n: u8, carry: bool) -> (r: (u8, bool))
        requires
            m < 16,
            n == 6,
        ensures
            r == (if m + 6 >= 16 { (m - 10) as u8 } else { (m + 6) as u8 }, m + 6 > 15 || carry),
    {
        let result = m + n;
        assert((result & 15u8) == (if result >= 16 { (result - 16) as u8 } else { result })) by (bit_vector)
            requires
                result < 32,
        ;
        (result & 0b1111, result > 15 || carry)
    }

    /// Decimal addition of a value to the accumulator.
    fn instr_adc_val_decimal(&mut self, value: u8, subtraction: bool)
        requires
            old(self)@.registers.status.decimal_mode,
        ensures
            final(self)@ == adc_value_spec(old(self)@, value, subtraction),
            same_map(old(self)@.bus, final(self)@.bus),
            final(self).clock_rate() == old(self).clock_rate(),
    {
        let a = self.state.registers.accumulator;
        let (result, hi_carry) = Self::decimal_add(a, value, self.state.registers.status.carry, subtraction);
        self.state.registers.accumulator = result;
        self.state.registers.status.carry = hi_carry;
        self.state.registers.status.overflow = false;
        self.update_nz(result);
    }

    /// Binary addition of a value to the accumulator.
    fn instr_adc_val_binary(&mut self, value: u8)
        requires
            !old(self)@.registers.status.decimal_mode,
        ensures
            final(self)@ == adc_value_spec(old(self)@, value, false),
            same_map(old(self)@.bus, final(self)@.bus),
            final(self).clock_rate() == old(self).clock_rate(),
    {
        let a = self.state.registers.accumulator;
        let c: u16 = if self.state.registers.status.carry { 1 } else { 0 };
        let sum: u16 = a as u16 + value as u16 + c;
        let result: u8 = if sum >= 256 { (sum - 256) as u8 } else { sum as u8 };
        self.state.registers.status.carry = sum >= 256;
        self.update_nz(result);
        let a7 = (a >> 7) & 1;
        let v7 = (value >> 7) & 1;
        let r7 = (result >> 7) & 1;
        assert(a7 == (if a >= 128 { 1u8 } else { 0u8 }) && v7 == (if value >= 128 { 1u8 } else { 0u8 }) && r7 == (if result >= 128 { 1u8 } else { 0u8 })) by (bit_vector)
            requires
                a7 == (a >> 7u8) & 1u8,
                v7 == (value >> 7u8) & 1u8,
                r7 == (result >> 7u8) & 1u8,
        ;
        let overflow = (a7 != 0 && v7 != 0 && r7 == 0) || (a7 == 0 && v7 == 0 && r7 != 0);
        assert(overflow == adc_overflow(a, value, old(self)@.registers.status.carry));
        self.state.registers.status.overflow = overflow;
        self.state.registers.accumulator = result;
    }

    /// Addition of a value to the accumulator in the current mode.
    fn instr_adc_val(&mut self, value: u8, subtraction: bool)
        ensures
            final(self)@ == adc_value_spec(old(self)@, value, subtraction),
            same_map(old(self)@.bus, final(self)@.bus),
            final(self).clock_rate() == old(self).clock_rate(),
    {
        if self.state.registers.status.decimal_mode {
            self.instr_adc_val_decimal(value, subtraction)
        } else {
            self.instr_adc_val_binary(value)
        }
    }

    /// ADC.
    fn instr_adc(&mut self, arg: Operand) -> (r: Result<(), Error>)
        requires
            operand_mapped(old(self)@.bus, arg),
        ensures
            (final(self)@, r) == adc_spec(old(self)@, arg),
            same_map(old(self)@.bus, final(self)@.bus),
            final(self).clock_rate() == old(self).clock_rate(),
    {
        if self.state.registers.status.decimal_mode && self.variant == Variant::Wdc65c02 {
            self.inc_cycles(1);
        }
        let value = match arg {
            Operand::Immediate(val) => val as u8,
            Operand::Address(addr) => self.read_byte(addr),
            _ => return Err(Error::OperandUnsupported),
        };
        self.instr_adc_val(value, false);
        Ok(())
    }

    /// SBC.
    fn instr_sbc(&mut self, arg: Operand) -> (r: Result<(), Error>)
        requires
            operand_mapped(old(self)@.bus, arg),
        ensures
            (final(self)@, r) == sbc_spec(old(self)@, arg),
            same_map(old(self)@.bus, final(self)@.bus),
            final(self).clock_rate() == old(self).clock_rate(),
    {
        if self.state.registers.status.decimal_mode && self.variant == Variant::Wdc65c02 {
            self.inc_cycles(1);
        }
        let value = match arg {
            Operand::Immediate(val) => val as u8,
            Operand::Address(addr) => self.read_byte(addr),
            _ => return Err(Error::OperandUnsupported),
        };
        assert(!value == (255 - value) as u8) by (bit_vector);
        self.instr_adc_val(!value, true);
        Ok(())
    }

    /// Compares a register with the operand.
    fn compare(&mut self, arg: Operand, a: u8) -> (r: Result<(), Error>)
        requires
            operand_mapped(old(self)@.bus, arg),
        ensures
            (final(self)@, r) == compare_spec(old(self)@, arg, a),
            same_map(old(self)@.bus, final(self)@.bus),
            final(self).clock_rate() == old(self).clock_rate(),
    {
        let b = match self.get_operand_addr_imm(&arg) {
            Ok(b) => b,
            Err(e) => return Err(e),
        };
        let result = a.wrapping_sub(b);
        self.state.registers.status.carry = b <= a;
        self.update_nz(result);
        Ok(())
    }

    /// CMP.
    fn instr_cmp(&mut self, arg: Operand) -> (r: Result<(), Error>)
        requires
            operand_mapped(old(self)@.bus, arg),
        ensures
            (final(self)@, r) == compare_spec(old(self)@, arg, old(self)@.registers.accumulator),
            same_map(old(self)@.bus, final(self)@.bus),
            final(self).clock_rate() == old(self).clock_rate(),
    {
        let a = self.state.registers.accumulator;
        self.compare(arg, a)
    }

    /// CPX.
    fn instr_cpx(&mut self, arg: Operand) -> (r: Result<(), Error>)
        requires
            operand_mapped(old(self)@.bus, arg),
        ensures
            (final(self)@, r) == compare_spec(old(self)@, arg, old(self)@.registers.index_x),
            same_map(old(self)@.bus, final(self)@.bus),
            final(self).clock_rate() == old(self).clock_rate(),
    {
        let a = self.state.registers.index_x;
        self.compare(arg, a)
    }

    /// CPY.
    fn instr_cpy(&mut self, arg: Operand) -> (r: Result<(), Error>)
        requires
            operand_mapped(old(self)@.bus, arg),
        ensures
            (final(self)@, r) == compare_spec(old(self)@, arg, old(self)@.registers.index_y),
            same_map(old(self)@.bus, final(self)@.bus),
            final(self).clock_rate() == old(self).clock_rate(),
    {
        let a = self.state.registers.index_y;
        self.compare(arg, a)
    }

    /// A value plus one, wrapping, with negative and zero set from it.
    fn increment(&mut self, a: u8) -> (r: u8)
        ensures
            r == wrap8(a + 1),
            final(self)@ == with_status(old(self)@, set_nz(old(self)@.registers.status, r)),
            same_map(old(self)@.bus, final(self)@.bus),
            final(self).clock_rate() == old(self).clock_rate(),
    {
        let result = a.wrapping_add(1);
        self.update_nz(result);
        result
    }

    /// A value minus one, wrapping, with negative and zero set from it.
    fn decrement(&mut self, a: u8) -> (r: u8)
        ensures
            r == wrap8(a - 1),
            final(self)@ == with_status(old(self)@, set_nz(old(self)@.registers.status, r)),
            same_map(old(self)@.bus, final(self)@.bus),
            final(self).clock_rate() == old(self).clock_rate(),
    {
        let result = a.wrapping_sub(1);
        self.update_nz(result);
        result
    }

    /// INX.
    fn instr_inx(&mut self)
        ensures
            final(self)@ == transfer_spec(old(self)@, wrap8(old(self)@.registers.index_x + 1), LoadTarget::IndexX),
            same_map(old(self)@.bus, final(self)@.bus),
            final(self).clock_rate() == old(self).clock_rate(),
    {
        let x = self.state.registers.index_x;
        let result = self.increment(x);
        self.state.registers.index_x = result;
    }

    /// INY.
    fn instr_iny(&mut self)
        ensures
            final(self)@ == transfer_spec(old(self)@, wrap8(old(self)@.registers.index_y + 1), LoadTarget::IndexY),
            same_map(old(self)@.bus, final(self)@.bus),
            final(self).clock_rate() == old(self).clock_rate(),
    {
        let y = self.state.registers.index_y;
        let result = self.increment(y);
        self.state.registers.index_y = result;
    }

    /// DEX.
    fn instr_dex(&mut self)
        ensures
            final(self)@ == transfer_spec(old(self)@, wrap8(old(self)@.registers.index_x - 1), LoadTarget::IndexX),
            same_map(old(self)@.bus, final(self)@.bus),
            final(self).clock_rate() == old(self).clock_rate(),
    {
        let x = self.state.registers.index_x;
        let result = self.decrement(x);
        self.state.registers.index_x = result;
    }

    /// DEY.
    fn instr_dey(&mut self)
        ensures
            final(self)@ == transfer_spec(old(self)@, wrap8(old(self)@.registers.index_y - 1), LoadTarget::IndexY),
            same_map(old(self)@.bus, final(self)@.bus),
            final(self).clock_rate() == old(self).clock_rate(),
    {
        let y = self.state.registers.index_y;
        let result = self.decrement(y);
        self.state.registers.index_y = result;
    }

    /// INC.
    fn instr_inc(&mut self, arg: Operand) -> (r: Result<(), Error>)
        requires
            operand_mapped(old(self)@.bus, arg),
        ensures
            (final(self)@, r) == step_spec(old(self)@, arg, 1),
            same_map(old(self)@.bus, final(self)@.bus),
            final(self).clock_rate() == old(self).clock_rate(),
    {
        let addr = match arg {
            Operand::Address(addr) => addr,
            Operand::Accumulator => {
                let a = self.state.registers.accumulator;
                let result = self.increment(a);
                self.state.registers.accumulator = result;
                return Ok(());
            },
            _ => return Err(Error::OperandUnsupported),
        };
        let val = self.read_byte(addr);
        // a second read, as the hardware spends a cycle re-reading the location
        let _ = self.read_byte(addr);
        let result = self.increment(val);
        self.write_byte(addr, result);
        Ok(())
    }

    /// DEC.
    fn instr_dec(&mut self, arg: Operand) -> (r: Result<(), Error>)
        requires
            operand_mapped(old(self)@.bus, arg),
        ensures
            (final(self)@, r) == step_spec(old(self)@, arg, -1),
            same_map(old(self)@.bus, final(self)@.bus),
            final(self).clock_rate() == old(self).clock_rate(),
    {
        let addr = match arg {
            Operand::Address(addr) => addr,
            Operand::Accumulator => {
                let a = self.state.registers.accumulator;
                let result = self.decrement(a);
                self.state.registers.accumulator = result;
                return Ok(());
            },
            _ => return Err(Error::OperandUnsupported),
        };
        let val = self.read_byte(addr);
        // a second read, as the hardware spends a cycle re-reading the location
        let _ = self.read_byte(addr);
        let result = self.decrement(val);
        self.write_byte(addr, result);
        Ok(())
    }

    /// Takes a branch.
    fn instr_branch(&mut self, arg: Operand) -> (r: Result<(), Error>)
        ensures
            (final(self)@, r) == branch_spec(old(self)@, arg),
            same_map(old(self)@.bus, final(self)@.bus),
            final(self).clock_rate() == old(self).clock_rate(),
    {
        match arg {
            Operand::Address(addr) => {
                let pc = self.state.registers.pc;
                assert(addr >> 8 == addr / 256 && pc >> 8 == pc / 256) by (bit_vector);
                let extra: u64 = if addr >> 8 != (pc >> 8) { 2 } else { 1 };
                self.inc_cycles(extra);
                self.state.registers.pc = addr;
                Ok(())
            },
            _ => Err(Error::OperandUnsupported),
        }
    }

    /// BCC.
    fn instr_bcc(&mut self, arg: Operand) -> (r: Result<(), Error>)
        ensures
            (final(self)@, r) == cond_branch_spec(old(self)@, !old(self)@.registers.status.carry, arg),
            same_map(old(self)@.bus, final(self)@.bus),
            final(self).clock_rate() == old(self).clock_rate(),
    {
        if !self.state.registers.status.carry {
            self.instr_branch(arg)
        } else {
            Ok(())
        }
    }

    /// BCS.
    fn instr_bcs(&mut self, arg: Operand) -> (r: Result<(), Error>)
        ensures
            (final(self)@, r) == cond_branch_spec(old(self)@, old(self)@.registers.status.carry, arg),
            same_map(old(self)@.bus, final(self)@.bus),
            final(self).clock_rate() == old(self).clock_rate(),
    {
        if self.state.registers.status.carry {
            self.instr_branch(arg)
        } else {
            Ok(())
        }
    }

    /// BEQ.
    fn instr_beq(&mut self, arg: Operand) -> (r: Result<(), Error>)
        ensures
            (final(self)@, r) == cond_branch_spec(old(self)@, old(self)@.registers.status.zero, arg),
            same_map(old(self)@.bus, final(self)@.bus),
            final(self).clock_rate() == old(self).clock_rate(),
    {
        if self.state.registers.status.zero {
            self.instr_branch(arg)
        } else {
            Ok(())
        }
    }

    /// BNE.
    fn instr_bne(&mut self, arg: Operand) -> (r: Result<(), Error>)
        ensures
            (final(self)@, r) == cond_branch_spec(old(self)@, !old(self)@.registers.status.zero, arg),
            same_map(old(self)@.bus, final(self)@.bus),
            final(self).clock_rate() == old(self).clock_rate(),
    {
        if !self.state.registers.status.zero {
            self.instr_branch(arg)
        } else {
            Ok(())
        }
    }

    /// BMI.
    fn instr_bmi(&mut self, arg: Operand) -> (r: Result<(), Error>)
        ensures
            (final(self)@, r) == cond_branch_spec(old(self)@, old(self)@.registers.status.negative, arg),
            same_map(old(self)@.bus, final(self)@.bus),
            final(self).clock_rate() == old(self).clock_rate(),
    {
        if self.state.registers.status.negative {
            self.instr_branch(arg)
        } else {
            Ok(())
        }
    }

    /// BPL.
    fn instr_bpl(&mut self, arg: Operand) -> (r: Result<(), Error>)
        ensures
            (final(self)@, r) == cond_branch_spec(old(self)@, !old(self)@.registers.status.negative, arg),
            same_map(old(self)@.bus, final(self)@.bus),
            final(self).clock_rate() == old(self).clock_rate(),
    {
        if !self.state.registers.status.negative {
            self.instr_branch(arg)
        } else {
            Ok(())
        }
    }

    /// BVS.
    fn instr_bvs(&mut self, arg: Operand) -> (r: Result<(), Error>)
        ensures
            (final(self)@, r) == cond_branch_spec(old(self)@, old(self)@.registers.status.overflow, arg),
            same_map(old(self)@.bus, final(self)@.bus),
            final(self).clock_rate() == old(self).clock_rate(),
    {
        if self.state.registers.status.overflow {
            self.instr_branch(arg)
        } else {
            Ok(())
        }
    }

    /// BVC.
    fn instr_bvc(&mut self, arg: Operand) -> (r: Result<(), Error>)
        ensures
            (final(self)@, r) == cond_branch_spec(old(self)@, !old(self)@.registers.status.overflow, arg),
            same_map(old(self)@.bus, final(self)@.bus),
            final(self).clock_rate() == old(self).clock_rate(),
    {
        if !self.state.registers.status.overflow {
            self.instr_branch(arg)
        } else {
            Ok(())
        }
    }

    /// BRA.
    fn instr_bra(&mut self, arg: Operand) -> (r: Result<(), Error>)
        ensures
            (final(self)@, r) == cond_branch_spec(old(self)@, true, arg),
            same_map(old(self)@.bus, final(self)@.bus),
            final(self).clock_rate() == old(self).clock_rate(),
    {
        if true {
            self.instr_branch(arg)
        } else {
            Ok(())
        }
    }

    /// LSR.
    fn instr_lsr(&mut self, arg: Operand) -> (r: Result<(), Error>)
        requires
            operand_mapped(old(self)@.bus, arg),
        ensures
            (final(self)@, r) == shift_spec(old(self)@, arg, ShiftKind::Lsr),
            same_map(old(self)@.bus, final(self)@.bus),
            final(self).clock_rate() == old(self).clock_rate(),
    {
        match arg {
            Operand::Address(addr) => {
                let v = self.read_byte(addr);
                let c = v & 1 != 0;
                let nv = v >> 1;
                assert(nv == v / 2 && c == (v % 2 == 1)) by (bit_vector)
                    requires
                        nv == v >> 1u8,
                        c == (v & 1u8 != 0u8),
                ;
                self.state.registers.status.carry = c;
                self.update_nz(nv);
                self.write_byte(addr, nv);
                Ok(())
            },
            Operand::Accumulator => {
                let v = self.state.registers.accumulator;
                let c = v & 1 != 0;
                let nv = v >> 1;
                assert(nv == v / 2 && c == (v % 2 == 1)) by (bit_vector)
                    requires
                        nv == v >> 1u8,
                        c == (v & 1u8 != 0u8),
                ;
                self.state.registers.status.carry = c;
                self.state.registers.accumulator = nv;
                self.update_nz(nv);
                Ok(())
            },
            _ => Err(Error::OperandUnsupported),
        }
    }

    /// ASL.
    fn instr_asl(&mut self, arg: Operand) -> (r: Result<(), Error>)
        requires
            operand_mapped(old(self)@.bus, arg),
        ensures
            (final(self)@, r) == shift_spec(old(self)@, arg, ShiftKind::Asl),
            same_map(old(self)@.bus, final(self)@.bus),
            final(self).clock_rate() == old(self).clock_rate(),
    {
        match arg {
            Operand::Address(addr) => {
                let v = self.read_byte(addr);
                let c = (v >> 7) & 1 != 0;
                let nv = v << 1;
                assert(c == (v >= 128) && nv == (if v >= 128 { (v * 2 - 256) as u8 } else { (v * 2) as u8 })) by (bit_vector)
                    requires
                        nv == v << 1u8,
                        c == ((v >> 7u8) & 1u8 != 0u8),
                ;
                self.state.registers.status.carry = c;
                self.update_nz(nv);
                self.write_byte(addr, nv);
                Ok(())
            },
            Operand::Accumulator => {
                let v = self.state.registers.accumulator;
                let c = (v >> 7) & 1 != 0;
                let nv = v << 1;
                assert(c == (v >= 128) && nv == (if v >= 128 { (v * 2 - 256) as u8 } else { (v * 2) as u8 })) by (bit_vector)
                    requires
                        nv == v << 1u8,
                        c == ((v >> 7u8) & 1u8 != 0u8),
                ;
                self.state.registers.status.carry = c;
                self.state.registers.accumulator = nv;
                self.update_nz(nv);
                Ok(())
            },
            _ => Err(Error::OperandUnsupported),
        }
    }

    /// ROL.
    fn instr_rol(&mut self, arg: Operand) -> (r: Result<(), Error>)
        requires
            operand_mapped(old(self)@.bus, arg),
        ensures
            (final(self)@, r) == shift_spec(old(self)@, arg, ShiftKind::Rol),
            same_map(old(self)@.bus, final(self)@.bus),
            final(self).clock_rate() == old(self).clock_rate(),
    {
        match arg {
            Operand::Address(addr) => {
                let v = self.read_byte(addr);
                let (nv, c) = rotate_left(v, self.state.registers.status.carry);
                self.state.registers.status.carry = c;
                self.update_nz(nv);
                self.write_byte(addr, nv);
                Ok(())
            },
            Operand::Accumulator => {
                let v = self.state.registers.accumulator;
                let (nv, c) = rotate_left(v, self.state.registers.status.carry);
                self.state.registers.status.carry = c;
                self.state.registers.accumulator = nv;
                self.update_nz(nv);
                Ok(())
            },
            _ => Err(Error::OperandUnsupported),
        }
    }

    /// ROR.
    fn instr_ror(&mut self, arg: Operand) -> (r: Result<(), Error>)
        requires
            operand_mapped(old(self)@.bus, arg),
        ensures
            (final(self)@, r) == shift_spec(old(self)@, arg, ShiftKind::Ror),
            same_map(old(self)@.bus, final(self)@.bus),
            final(self).clock_rate() == old(self).clock_rate(),
    {
        match arg {
            Operand::Address(addr) => {
                let v = self.read_byte(addr);
                let (nv, c) = rotate_right(v, self.state.registers.status.carry);
                self.state.registers.status.carry = c;
                self.update_nz(nv);
                self.write_byte(addr, nv);
                Ok(())
            },
            Operand::Accumulator => {
                let v = self.state.registers.accumulator;
                let (nv, c) = rotate_right(v, self.state.registers.status.carry);
                self.state.registers.status.carry = c;
                self.state.registers.accumulator = nv;
                self.update_nz(nv);
                Ok(())
            },
            _ => Err(Error::OperandUnsupported),
        }
    }

    /// AND.
    fn instr_and(&mut self, arg: Operand) -> (r: Result<(), Error>)
        requires
            operand_mapped(old(self)@.bus, arg),
        ensures
            (final(self)@, r) == logic_spec(old(self)@, arg, LogicKind::And),
            same_map(old(self)@.bus, final(self)@.bus),
            final(self).clock_rate() == old(self).clock_rate(),
    {
        let val = match self.get_operand_addr_imm(&arg) {
            Ok(v) => v,
            Err(e) => return Err(e),
        };
        let result = self.state.registers.accumulator & val;
        self.state.registers.accumulator = result;
        self.update_nz(result);
        Ok(())
    }

    /// ORA.
    fn instr_ora(&mut self, arg: Operand) -> (r: Result<(), Error>)
        requires
            operand_mapped(old(self)@.bus, arg),
        ensures
            (final(self)@, r) == logic_spec(old(self)@, arg, LogicKind::Ora),
            same_map(old(self)@.bus, final(self)@.bus),
            final(self).clock_rate() == old(self).clock_rate(),
    {
        let val = match self.get_operand_addr_imm(&arg) {
            Ok(v) => v,
            Err(e) => return Err(e),
        };
        let result = self.state.registers.accumulator | val;
        self.state.registers.accumulator = result;
        self.update_nz(result);
        Ok(())
    }

    /// EOR.
    fn instr_eor(&mut self, arg: Operand) -> (r: Result<(), Error>)
        requires
            operand_mapped(old(self)@.bus, arg),
        ensures
            (final(self)@, r) == logic_spec(old(self)@, arg, LogicKind::Eor),
            same_map(old(self)@.bus, final(self)@.bus),
            final(self).clock_rate() == old(self).clock_rate(),
    {
        let val = match self.get_operand_addr_imm(&arg) {
            Ok(v) => v,
            Err(e) => return Err(e),
        };
        let result = self.state.registers.accumulator ^ val;
        self.state.registers.accumulator = result;
        self.update_nz(result);
        Ok(())
    }

    /// BIT.
    fn instr_bit(&mut self, arg: Operand) -> (r: Result<(), Error>)
        requires
            operand_mapped(old(self)@.bus, arg),
        ensures
            (final(self)@, r) == bit_spec(old(self)@, arg),
            same_map(old(self)@.bus, final(self)@.bus),
            final(self).clock_rate() == old(self).clock_rate(),
    {
        let val = match arg {
            Operand::Address(addr) => self.read_byte(addr),
            Operand::Immediate(v) => v as u8,
            _ => return Err(Error::OperandUnsupported),
        };
        // the 65C02 immediate mode only changes zero
        let zero_only = match arg {
            Operand::Immediate(_) => true,
            _ => false,
        };
        if !zero_only {
            assert(((val & 128u8) != 0u8) == (val >= 128) && ((val & 64u8) != 0u8) == ((val / 64) % 2 == 1)) by (bit_vector);
            self.state.registers.status.negative = (val & 128) != 0;
            self.state.registers.status.overflow = (val & 64) != 0;
        }
        self.state.registers.status.zero = (val & self.state.registers.accumulator) == 0;
        Ok(())
    }

    /// PHA.
    fn instr_pha(&mut self)
        requires
            stack_mapped(old(self)@, 0),
        ensures
            final(self)@ == push_spec(old(self)@, old(self)@.registers.accumulator),
            same_map(old(self)@.bus, final(self)@.bus),
            final(self).clock_rate() == old(self).clock_rate(),
    {
        let a = self.state.registers.accumulator;
        self.push(a);
    }

    /// PHX.
    fn instr_phx(&mut self)
        requires
            stack_mapped(old(self)@, 0),
        ensures
            final(self)@ == push_spec(old(self)@, old(self)@.registers.index_x),
            same_map(old(self)@.bus, final(self)@.bus),
            final(self).clock_rate() == old(self).clock_rate(),
    {
        let x = self.state.registers.index_x;
        self.push(x);
    }

    /// PHY.
    fn instr_phy(&mut self)
        requires
            stack_mapped(old(self)@, 0),
        ensures
            final(self)@ == push_spec(old(self)@, old(self)@.registers.index_y),
            same_map(old(self)@.bus, final(self)@.bus),
            final(self).clock_rate() == old(self).clock_rate(),
    {
        let y = self.state.registers.index_y;
        self.push(y);
    }

    /// PHP: the flags with the break bit set.
    fn instr_php(&mut self)
        requires
            stack_mapped(old(self)@, 0),
        ensures
            final(self)@ == php_spec(old(self)@),
            same_map(old(self)@.bus, final(self)@.bus),
            final(self).clock_rate() == old(self).clock_rate(),
    {
        let status = self.state.registers.status.to_byte();
        self.push(status | 0x10);
    }

    /// PLA.
    fn instr_pla(&mut self)
        requires
            stack_mapped(old(self)@, 1),
        ensures
            final(self)@ == pull_spec(old(self)@, LoadTarget::Accumulator),
            same_map(old(self)@.bus, final(self)@.bus),
            final(self).clock_rate() == old(self).clock_rate(),
    {
        let value = self.pop();
        self.state.registers.accumulator = value;
        self.update_nz(value);
    }

    /// PLX.
    fn instr_plx(&mut self)
        requires
            stack_mapped(old(self)@, 1),
        ensures
            final(self)@ == pull_spec(old(self)@, LoadTarget::IndexX),
            same_map(old(self)@.bus, final(self)@.bus),
            final(self).clock_rate() == old(self).clock_rate(),
    {
        let value = self.pop();
        self.state.registers.index_x = value;
        self.update_nz(value);
    }

    /// PLY.
    fn instr_ply(&mut self)
        requires
            stack_mapped(old(self)@, 1),
        ensures
            final(self)@ == pull_spec(old(self)@, LoadTarget::IndexY),
            same_map(old(self)@.bus, final(self)@.bus),
            final(self).clock_rate() == old(self).clock_rate(),
    {
        let value = self.pop();
        self.state.registers.index_y = value;
        self.update_nz(value);
    }

    /// PLP.
    fn instr_plp(&mut self)
        requires
            stack_mapped(old(self)@, 1),
        ensures
            final(self)@ == plp_spec(old(self)@),
            same_map(old(self)@.bus, final(self)@.bus),
            final(self).clock_rate() == old(self).clock_rate(),
    {
        let value = self.pop();
        self.state.registers.status = Status::from_byte(value);
    }

    /// RTI.
    fn instr_rti(&mut self)
        requires
            stack_mapped(old(self)@, 1),
            stack_mapped(old(self)@, 2),
            stack_mapped(old(self)@, 3),
        ensures
            final(self)@ == rti_spec(old(self)@),
            same_map(old(self)@.bus, final(self)@.bus),
            final(self).clock_rate() == old(self).clock_rate(),
    {
        let value = self.pop();
        self.state.registers.status = Status::from_byte(value);
        let pc = self.pop16();
        self.state.registers.pc = pc;
    }

    /// RTS.
    fn instr_rts(&mut self)
        requires
            stack_mapped(old(self)@, 1),
            stack_mapped(old(self)@, 2),
        ensures
            final(self)@ == rts_spec(old(self)@),
            same_map(old(self)@.bus, final(self)@.bus),
            final(self).clock_rate() == old(self).clock_rate(),
    {
        let _ = self.state.stack_frame.pop();
        let pc = self.pop16();
        self.state.registers.pc = pc.wrapping_add(1);
    }

    /// JSR.
    fn instr_jsr(&mut self, arg: Operand, pc: u16) -> (r: Result<(), Error>)
        requires
            stack_mapped(old(self)@, 0),
            stack_mapped(old(self)@, -1),
        ensures
            (final(self)@, r) == jsr_spec(old(self)@, arg, pc),
            same_map(old(self)@.bus, final(self)@.bus),
            final(self).clock_rate() == old(self).clock_rate(),
    {
        match arg {
            Operand::Address(addr) => {
                // the return address pushed is that of the last byte of the JSR
                self.state.stack_frame.push(pc);
                let ret = self.state.registers.pc.wrapping_sub(1);
                self.push16(ret);
                self.state.registers.pc = addr;
                Ok(())
            },
            _ => Err(Error::OperandUnsupported),
        }
    }

    /// JMP.
    fn instr_jmp(&mut self, arg: Operand) -> (r: Result<(), Error>)
        ensures
            (final(self)@, r) == jmp_spec(old(self)@, arg),
            same_map(old(self)@.bus, final(self)@.bus),
            final(self).clock_rate() == old(self).clock_rate(),
    {
        match arg {
            Operand::Address(addr) => {
                self.state.registers.pc = addr;
                Ok(())
            },
            _ => Err(Error::OperandUnsupported),
        }
    }

    /// Loads an interrupt vector, disables interrupts and, on the 65C02, leaves decimal mode.
    fn enter_handler(&mut self, vector: u16, clear_brk: bool)
        requires
            word_mapped(old(self)@.bus, vector),
        ensures
            final(self)@ == enter_handler(old(self)@, vector, clear_brk),
            same_map(old(self)@.bus, final(self)@.bus),
            final(self).clock_rate() == old(self).clock_rate(),
    {
        let pc = self.read_word(vector);
        self.state.registers.pc = pc;
        self.state.registers.status.irq_disable = true;
        if clear_brk {
            self.state.registers.status.brk_command = false;
        }
        if self.variant == Variant::Wdc65c02 {
            self.state.registers.status.decimal_mode = false;
        }
    }

    /// BRK.
    fn instr_brk(&mut self)
        requires
            entry_mapped(old(self)@, VECTOR_IRQ),
        ensures
            final(self)@ == brk_spec(old(self)@),
            same_map(old(self)@.bus, final(self)@.bus),
            final(self).clock_rate() == old(self).clock_rate(),
    {
        let status = self.state.registers.status.to_byte();
        let pc = self.state.registers.pc.wrapping_add(1);
        self.push16(pc);
        self.push(status | 0x10);
        self.enter_handler(VECTOR_IRQ, false);
    }

    /// STA.
    fn instr_sta(&mut self, arg: Operand) -> (r: Result<(), Error>)
        requires
            operand_mapped(old(self)@.bus, arg),
        ensures
            (final(self)@, r) == store_spec(old(self)@, arg, old(self)@.registers.accumulator),
            same_map(old(self)@.bus, final(self)@.bus),
            final(self).clock_rate() == old(self).clock_rate(),
    {
        let addr = match self.get_operand_addr(&arg) {
            Ok(a) => a,
            Err(e) => return Err(e),
        };
        let v = self.state.registers.accumulator;
        self.write_byte(addr, v);
        Ok(())
    }

    /// STX.
    fn instr_stx(&mut self, arg: Operand) -> (r: Result<(), Error>)
        requires
            operand_mapped(old(self)@.bus, arg),
        ensures
            (final(self)@, r) == store_spec(old(self)@, arg, old(self)@.registers.index_x),
            same_map(old(self)@.bus, final(self)@.bus),
            final(self).clock_rate() == old(self).clock_rate(),
    {
        let addr = match self.get_operand_addr(&arg) {
            Ok(a) => a,
            Err(e) => return Err(e),
        };
        let v = self.state.registers.index_x;
        self.write_byte(addr, v);
        Ok(())
    }

    /// STY.
    fn instr_sty(&mut self, arg: Operand) -> (r: Result<(), Error>)
        requires
            operand_mapped(old(self)@.bus, arg),
        ensures
            (final(self)@, r) == store_spec(old(self)@, arg, old(self)@.registers.index_y),
            same_map(old(self)@.bus, final(self)@.bus),
            final(self).clock_rate() == old(self).clock_rate(),
    {
        let addr = match self.get_operand_addr(&arg) {
            Ok(a) => a,
            Err(e) => return Err(e),
        };
        let v = self.state.registers.index_y;
        self.write_byte(addr, v);
        Ok(())
    }

    /// STZ.
    fn instr_stz(&mut self, arg: Operand) -> (r: Result<(), Error>)
        requires
            operand_mapped(old(self)@.bus, arg),
        ensures
            (final(self)@, r) == store_spec(old(self)@, arg, 0),
            same_map(old(self)@.bus, final(self)@.bus),
            final(self).clock_rate() == old(self).clock_rate(),
    {
        match arg {
            Operand::Address(addr) => {
                self.write_byte(addr, 0x00);
                Ok(())
            },
            _ => Err(Error::OperandUnsupported),
        }
    }

    /// TAX.
    fn instr_tax(&mut self)
        ensures
            final(self)@ == transfer_spec(old(self)@, old(self)@.registers.accumulator, LoadTarget::IndexX),
            same_map(old(self)@.bus, final(self)@.bus),
            final(self).clock_rate() == old(self).clock_rate(),
    {
        let v = self.state.registers.accumulator;
        self.state.registers.index_x = v;
        self.update_nz(v);
    }

    /// TAY.
    fn instr_tay(&mut self)
        ensures
            final(self)@ == transfer_spec(old(self)@, old(self)@.registers.accumulator, LoadTarget::IndexY),
            same_map(old(self)@.bus, final(self)@.bus),
            final(self).clock_rate() == old(self).clock_rate(),
    {
        let v = self.state.registers.accumulator;
        self.state.registers.index_y = v;
        self.update_nz(v);
    }

    /// TSX.
    fn instr_tsx(&mut self)
        ensures
            final(self)@ == transfer_spec(old(self)@, old(self)@.registers.sp, LoadTarget::IndexX),
            same_map(old(self)@.bus, final(self)@.bus),
            final(self).clock_rate() == old(self).clock_rate(),
    {
        let v = self.state.registers.sp;
        self.state.registers.index_x = v;
        self.update_nz(v);
    }

    /// TXA.
    fn instr_txa(&mut self)
        ensures
            final(self)@ == transfer_spec(old(self)@, old(self)@.registers.index_x, LoadTarget::Accumulator),
            same_map(old(self)@.bus, final(self)@.bus),
            final(self).clock_rate() == old(self).clock_rate(),
    {
        let v = self.state.registers.index_x;
        self.state.registers.accumulator = v;
        self.update_nz(v);
    }

    /// TYA.
    fn instr_tya(&mut self)
        ensures
            final(self)@ == transfer_spec(old(self)@, old(self)@.registers.index_y, LoadTarget::Accumulator),
            same_map(old(self)@.bus, final(self)@.bus),
            final(self).clock_rate() == old(self).clock_rate(),
    {
        let v = self.state.registers.index_y;
        self.state.registers.accumulator = v;
        self.update_nz(v);
    }

    /// TXS.
    fn instr_txs(&mut self)
        ensures
            final(self)@ == with_registers(old(self)@, Registers { sp: old(self)@.registers.index_x, ..old(self)@.registers }),
            same_map(old(self)@.bus, final(self)@.bus),
            final(self).clock_rate() == old(self).clock_rate(),
    {
        self.state.registers.sp = self.state.registers.index_x;
    }

    /// CLC.
    fn instr_clc(&mut self)
        ensures
            final(self)@ == with_status(old(self)@, Status { carry: false, ..old(self)@.registers.status }),
            same_map(old(self)@.bus, final(self)@.bus),
            final(self).clock_rate() == old(self).clock_rate(),
    {
        self.state.registers.status.carry = false;
    }

    /// CLD.
    fn instr_cld(&mut self)
        ensures
            final(self)@ == with_status(old(self)@, Status { decimal_mode: false, ..old(self)@.registers.status }),
            same_map(old(self)@.bus, final(self)@.bus),
            final(self).clock_rate() == old(self).clock_rate(),
    {
        self.state.registers.status.decimal_mode = false;
    }

    /// CLI.
    fn instr_cli(&mut self)
        ensures
            final(self)@ == with_status(old(self)@, Status { irq_disable: false, ..old(self)@.registers.status }),
            same_map(old(self)@.bus, final(self)@.bus),
            final(self).clock_rate() == old(self).clock_rate(),
    {
        self.state.registers.status.irq_disable = false;
    }

    /// CLV.
    fn instr_clv(&mut self)
        ensures
            final(self)@ == with_status(old(self)@, Status { overflow: false, ..old(self)@.registers.status }),
            same_map(old(self)@.bus, final(self)@.bus),
            final(self).clock_rate() == old(self).clock_rate(),
    {
        self.state.registers.status.overflow = false;
    }

    /// SEC.
    fn instr_sec(&mut self)
        ensures
            final(self)@ == with_status(old(self)@, Status { carry: true, ..old(self)@.registers.status }),
            same_map(old(self)@.bus, final(self)@.bus),
            final(self).clock_rate() == old(self).clock_rate(),
    {
        self.state.registers.status.carry = true;
    }

    /// SED.
    fn instr_sed(&mut self)
        ensures
            final(self)@ == with_status(old(self)@, Status { decimal_mode: true, ..old(self)@.registers.status }),
            same_map(old(self)@.bus, final(self)@.bus),
            final(self).clock_rate() == old(self).clock_rate(),
    {
        self.state.registers.status.decimal_mode = true;
    }

    /// SEI.
    fn instr_sei(&mut self)
        ensures
            final(self)@ == with_status(old(self)@, Status { irq_disable: true, ..old(self)@.registers.status }),
            same_map(old(self)@.bus, final(self)@.bus),
            final(self).clock_rate() == old(self).clock_rate(),
    {
        self.state.registers.status.irq_disable = true;
    }

    /// STP: halt the processor.
    fn instr_stp(&mut self)
        ensures
            final(self)@ == (CpuView { request: ExecutionRequest::Halt, ..old(self)@ }),
            same_map(old(self)@.bus, final(self)@.bus),
            final(self).clock_rate() == old(self).clock_rate(),
    {
        self.execution_request = ExecutionRequest::Halt;
    }

    /// TSB.
    fn instr_tsb(&mut self, arg: Operand) -> (r: Result<(), Error>)
        requires
            operand_mapped(old(self)@.bus, arg),
        ensures
            (final(self)@, r) == test_bits_spec(old(self)@, arg, true),
            same_map(old(self)@.bus, final(self)@.bus),
            final(self).clock_rate() == old(self).clock_rate(),
    {
        match arg {
            Operand::Address(addr) => {
                let val = self.read_byte(addr);
                let a = self.state.registers.accumulator;
                self.update_zero_flag(val & a);
                self.write_byte(addr, val | a);
                Ok(())
            },
            _ => Err(Error::OperandUnsupported),
        }
    }

    /// TRB.
    fn instr_trb(&mut self, arg: Operand) -> (r: Result<(), Error>)
        requires
            operand_mapped(old(self)@.bus, arg),
        ensures
            (final(self)@, r) == test_bits_spec(old(self)@, arg, false),
            same_map(old(self)@.bus, final(self)@.bus),
            final(self).clock_rate() == old(self).clock_rate(),
    {
        match arg {
            Operand::Address(addr) => {
                let val = self.read_byte(addr);
                let a = self.state.registers.accumulator;
                self.update_zero_flag(val & a);
                self.write_byte(addr, val & !a);
                Ok(())
            },
            _ => Err(Error::OperandUnsupported),
        }
    }

    /// BBR: branch when the bit is clear.
    fn instr_bbr(&mut self, arg: Operand, bit: u8) -> (r: Result<(), Error>)
        ensures
            (final(self)@, r) == branch_bit_spec(old(self)@, arg, bit, false),
            same_map(old(self)@.bus, final(self)@.bus),
            final(self).clock_rate() == old(self).clock_rate(),
    {
        match arg {
            Operand::ZeroPageRel(val, branch) => {
                if val & bit == 0 {
                    self.state.registers.pc = branch;
                }
                Ok(())
            },
            _ => Err(Error::InvalidAddressingMode),
        }
    }

    /// BBS: branch when the bit is set.
    fn instr_bbs(&mut self, arg: Operand, bit: u8) -> (r: Result<(), Error>)
        ensures
            (final(self)@, r) == branch_bit_spec(old(self)@, arg, bit, true),
            same_map(old(self)@.bus, final(self)@.bus),
            final(self).clock_rate() == old(self).clock_rate(),
    {
        match arg {
            Operand::ZeroPageRel(val, branch) => {
                if val & bit == bit {
                    self.state.registers.pc = branch;
                }
                Ok(())
            },
            _ => Err(Error::InvalidAddressingMode),
        }
    }

    /// SMB: set a bit of memory.
    fn instr_smb(&mut self, arg: Operand, bit: u8) -> (r: Result<(), Error>)
        requires
            operand_mapped(old(self)@.bus, arg),
        ensures
            (final(self)@, r) == modify_bit_spec(old(self)@, arg, bit, true),
            same_map(old(self)@.bus, final(self)@.bus),
            final(self).clock_rate() == old(self).clock_rate(),
    {
        match arg {
            Operand::Address(addr) => {
                let val = self.read_byte(addr);
                self.write_byte(addr, val | bit);
                Ok(())
            },
            _ => Err(Error::InvalidAddressingMode),
        }
    }

    /// RMB: reset a bit of memory.
    fn instr_rmb(&mut self, arg: Operand, bit: u8) -> (r: Result<(), Error>)
        requires
            operand_mapped(old(self)@.bus, arg),
        ensures
            (final(self)@, r) == modify_bit_spec(old(self)@, arg, bit, false),
            same_map(old(self)@.bus, final(self)@.bus),
            final(self).clock_rate() == old(self).clock_rate(),
    {
        match arg {
            Operand::Address(addr) => {
                let val = self.read_byte(addr);
                self.write_byte(addr, val & !bit);
                Ok(())
            },
            _ => Err(Error::InvalidAddressingMode),
        }
    }

    /// WAI is not implemented.
    fn instr_wai(&mut self) -> (r: Result<(), Error>)
        ensures
            r == Err::<(), Error>(Error::WaiUnsupported),
            final(self)@ == old(self)@,
            final(self).clock_rate() == old(self).clock_rate(),
    {
        Err(Error::WaiUnsupported)
    }
}

} // verus!

verus! {

/// What executing a decoded instruction with its operand does. On the original 6502 the
/// 65C02 instructions do nothing; the NOP opcodes do nothing on either.
pub open spec fn dispatch_spec(c: CpuView, instruction: Instruction, arg: Operand, current_pc: u16) -> (CpuView, Result<(), Error>) {
    if is_65c02_only(instruction) && c.variant != Variant::Wdc65c02 {
        (c, Ok(()))
    } else {
        match group_of(instruction) {
            InstructionGroup::Read => read_spec(c, instruction, arg, current_pc),
            InstructionGroup::Modify => modify_spec(c, instruction, arg, current_pc),
            InstructionGroup::Flow => flow_spec(c, instruction, arg, current_pc),
            InstructionGroup::Implied => implied_spec(c, instruction, arg, current_pc),
            InstructionGroup::ExtAddress => ext_address_spec(c, instruction, arg, current_pc),
            InstructionGroup::ExtBitBranch => ext_bit_branch_spec(c, instruction, arg, current_pc),
            InstructionGroup::ExtImplied => ext_implied_spec(c, instruction, arg, current_pc),
            InstructionGroup::NoOperation => (c, Ok(())),
        }
    }
}

/// The instructions that only the 65C02 executes.
pub open spec fn is_65c02_only(instruction: Instruction) -> bool {
    match instruction {
        Instruction::Bra | Instruction::Phx | Instruction::Phy | Instruction::Plx | Instruction::Ply | Instruction::Stp | Instruction::Stz | Instruction::Trb | Instruction::Tsb | Instruction::Wai | Instruction::Bbr0 | Instruction::Bbr1 | Instruction::Bbr2 | Instruction::Bbr3 | Instruction::Bbr4 | Instruction::Bbr5 | Instruction::Bbr6 | Instruction::Bbr7 | Instruction::Bbs0 | Instruction::Bbs1 | Instruction::Bbs2 | Instruction::Bbs3 | Instruction::Bbs4 | Instruction::Bbs5 | Instruction::Bbs6 | Instruction::Bbs7 | Instruction::Rmb0 | Instruction::Rmb1 | Instruction::Rmb2 | Instruction::Rmb3 | Instruction::Rmb4 | Instruction::Rmb5 | Instruction::Rmb6 | Instruction::Rmb7 | Instruction::Smb0 | Instruction::Smb1 | Instruction::Smb2 | Instruction::Smb3 | Instruction::Smb4 | Instruction::Smb5 | Instruction::Smb6 | Instruction::Smb7 | Instruction::Nop03 | Instruction::Nop13 | Instruction::Nop23 | Instruction::Nop33 | Instruction::Nop43 | Instruction::Nop53 | Instruction::Nop63 | Instruction::Nop73 | Instruction::Nop83 | Instruction::Nop93 | Instruction::NopA3 | Instruction::NopB3 | Instruction::NopC3 | Instruction::NopD3 | Instruction::NopE3 | Instruction::NopF3 | Instruction::Nop0B | Instruction::Nop1B | Instruction::Nop2B | Instruction::Nop3B | Instruction::Nop4B | Instruction::Nop5B | Instruction::Nop6B | Instruction::Nop7B | Instruction::Nop8B | Instruction::Nop9B | Instruction::NopAB | Instruction::NopBB | Instruction::NopEB | Instruction::NopFB | Instruction::Nop02 | Instruction::Nop22 | Instruction::Nop42 | Instruction::Nop62 | Instruction::Nop82 | Instruction::Nope2 | Instruction::Nop44 | Instruction::Nop54 | Instruction::NopD4 | Instruction::Nopf4 | Instruction::NopDc | Instruction::NopFc | Instruction::Nop5c => true,
        _ => false,
    }
}

/// The groups of instructions, by the kind of operand they use.
#[derive(Debug, Clone, Copy, PartialEq, Eq, Structural)]
pub enum InstructionGroup {
    Read,
    Modify,
    Flow,
    Implied,
    ExtAddress,
    ExtBitBranch,
    ExtImplied,
    NoOperation,
}

/// The group an instruction belongs to.
pub open spec fn group_of(instruction: Instruction) -> InstructionGroup {
    match instruction {
        Instruction::Adc | Instruction::Sbc | Instruction::And | Instruction::Ora | Instruction::Eor | Instruction::Cmp | Instruction::Cpx | Instruction::Cpy | Instruction::Lda | Instruction::Ldx | Instruction::Ldy | Instruction::Bit => InstructionGroup::Read,
        Instruction::Inc | Instruction::Dec | Instruction::Asl | Instruction::Lsr | Instruction::Rol | Instruction::Ror => InstructionGroup::Modify,
        Instruction::Bcc | Instruction::Bcs | Instruction::Beq | Instruction::Bmi | Instruction::Bne | Instruction::Bpl | Instruction::Bvc | Instruction::Bvs | Instruction::Jmp | Instruction::Jsr | Instruction::Sta | Instruction::Stx | Instruction::Sty => InstructionGroup::Flow,
        Instruction::Brk | Instruction::Clc | Instruction::Cld | Instruction::Cli | Instruction::Clv | Instruction::Dex | Instruction::Dey | Instruction::Inx | Instruction::Iny | Instruction::Pha | Instruction::Php | Instruction::Pla | Instruction::Plp | Instruction::Rti | Instruction::Rts | Instruction::Sec | Instruction::Sed | Instruction::Sei | Instruction::Tax | Instruction::Tay | Instruction::Tsx | Instruction::Txa | Instruction::Txs | Instruction::Tya => InstructionGroup::Implied,
        Instruction::Bra | Instruction::Stz | Instruction::Tsb | Instruction::Trb | Instruction::Smb0 | Instruction::Smb1 | Instruction::Smb2 | Instruction::Smb3 | Instruction::Smb4 | Instruction::Smb5 | Instruction::Smb6 | Instruction::Smb7 | Instruction::Rmb0 | Instruction::Rmb1 | Instruction::Rmb2 | Instruction::Rmb3 | Instruction::Rmb4 | Instruction::Rmb5 | Instruction::Rmb6 | Instruction::Rmb7 => InstructionGroup::ExtAddress,
        Instruction::Bbr0 | Instruction::Bbr1 | Instruction::Bbr2 | Instruction::Bbr3 | Instruction::Bbr4 | Instruction::Bbr5 | Instruction::Bbr6 | Instruction::Bbr7 | Instruction::Bbs0 | Instruction::Bbs1 | Instruction::Bbs2 | Instruction::Bbs3 | Instruction::Bbs4 | Instruction::Bbs5 | Instruction::Bbs6 | Instruction::Bbs7 => InstructionGroup::ExtBitBranch,
        Instruction::Phx | Instruction::Phy | Instruction::Plx | Instruction::Ply | Instruction::Stp | Instruction::Wai => InstructionGroup::ExtImplied,
        _ => InstructionGroup::NoOperation,
    }
}

/// The instructions that read a value: loads, arithmetic, logic, compares and BIT.
#[verifier::opaque]
pub open spec fn read_spec(c: CpuView, instruction: Instruction, arg: Operand, current_pc: u16) -> (CpuView, Result<(), Error>) {
    match instruction {
        Instruction::Adc => adc_spec(c, arg),
        Instruction::Sbc => sbc_spec(c, arg),
        Instruction::And => logic_spec(c, arg, LogicKind::And),
        Instruction::Ora => logic_spec(c, arg, LogicKind::Ora),
        Instruction::Eor => logic_spec(c, arg, LogicKind::Eor),
        Instruction::Cmp => compare_spec(c, arg, c.registers.accumulator),
        Instruction::Cpx => compare_spec(c, arg, c.registers.index_x),
        Instruction::Cpy => compare_spec(c, arg, c.registers.index_y),
        Instruction::Lda => ld_spec(c, arg, LoadTarget::Accumulator),
        Instruction::Ldx => ld_spec(c, arg, LoadTarget::IndexX),
        Instruction::Ldy => ld_spec(c, arg, LoadTarget::IndexY),
        Instruction::Bit => bit_spec(c, arg),
        _ => (c, Ok(())),
    }
}

/// The read-modify-write instructions: increments, decrements, shifts and rotates.
#[verifier::opaque]
pub open spec fn modify_spec(c: CpuView, instruction: Instruction, arg: Operand, current_pc: u16) -> (CpuView, Result<(), Error>) {
    match instruction {
        Instruction::Inc => step_spec(c, arg, 1),
        Instruction::Dec => step_spec(c, arg, -1),
        Instruction::Asl => shift_spec(c, arg, ShiftKind::Asl),
        Instruction::Lsr => shift_spec(c, arg, ShiftKind::Lsr),
        Instruction::Rol => shift_spec(c, arg, ShiftKind::Rol),
        Instruction::Ror => shift_spec(c, arg, ShiftKind::Ror),
        _ => (c, Ok(())),
    }
}

/// Branches, jumps and stores.
#[verifier::opaque]
pub open spec fn flow_spec(c: CpuView, instruction: Instruction, arg: Operand, current_pc: u16) -> (CpuView, Result<(), Error>) {
    match instruction {
        Instruction::Bcc => cond_branch_spec(c, !c.registers.status.carry, arg),
        Instruction::Bcs => cond_branch_spec(c, c.registers.status.carry, arg),
        Instruction::Beq => cond_branch_spec(c, c.registers.status.zero, arg),
        Instruction::Bmi => cond_branch_spec(c, c.registers.status.negative, arg),
        Instruction::Bne => cond_branch_spec(c, !c.registers.status.zero, arg),
        Instruction::Bpl => cond_branch_spec(c, !c.registers.status.negative, arg),
        Instruction::Bvc => cond_branch_spec(c, !c.registers.status.overflow, arg),
        Instruction::Bvs => cond_branch_spec(c, c.registers.status.overflow, arg),
        Instruction::Jmp => jmp_spec(c, arg),
        Instruction::Jsr => jsr_spec(c, arg, current_pc),
        Instruction::Sta => store_spec(c, arg, c.registers.accumulator),
        Instruction::Stx => store_spec(c, arg, c.registers.index_x),
        Instruction::Sty => store_spec(c, arg, c.registers.index_y),
        _ => (c, Ok(())),
    }
}

/// The instructions without an operand.
#[verifier::opaque]
pub open spec fn implied_spec(c: CpuView, instruction: Instruction, arg: Operand, current_pc: u16) -> (CpuView, Result<(), Error>) {
    match instruction {
        Instruction::Brk => (brk_spec(c), Ok(())),
        Instruction::Clc => (with_status(c, Status { carry: false, ..c.registers.status }), Ok(())),
        Instruction::Cld => (with_status(c, Status { decimal_mode: false, ..c.registers.status }), Ok(())),
        Instruction::Cli => (with_status(c, Status { irq_disable: false, ..c.registers.status }), Ok(())),
        Instruction::Clv => (with_status(c, Status { overflow: false, ..c.registers.status }), Ok(())),
        Instruction::Dex => (transfer_spec(c, wrap8(c.registers.index_x - 1), LoadTarget::IndexX), Ok(())),
        Instruction::Dey => (transfer_spec(c, wrap8(c.registers.index_y - 1), LoadTarget::IndexY), Ok(())),
        Instruction::Inx => (transfer_spec(c, wrap8(c.registers.index_x + 1), LoadTarget::IndexX), Ok(())),
        Instruction::Iny => (transfer_spec(c, wrap8(c.registers.index_y + 1), LoadTarget::IndexY), Ok(())),
        Instruction::Pha => (push_spec(c, c.registers.accumulator), Ok(())),
        Instruction::Php => (php_spec(c), Ok(())),
        Instruction::Pla => (pull_spec(c, LoadTarget::Accumulator), Ok(())),
        Instruction::Plp => (plp_spec(c), Ok(())),
        Instruction::Rti => (rti_spec(c), Ok(())),
        Instruction::Rts => (rts_spec(c), Ok(())),
        Instruction::Sec => (with_status(c, Status { carry: true, ..c.registers.status }), Ok(())),
        Instruction::Sed => (with_status(c, Status { decimal_mode: true, ..c.registers.status }), Ok(())),
        Instruction::Sei => (with_status(c, Status { irq_disable: true, ..c.registers.status }), Ok(())),
        Instruction::Tax => (transfer_spec(c, c.registers.accumulator, LoadTarget::IndexX), Ok(())),
        Instruction::Tay => (transfer_spec(c, c.registers.accumulator, LoadTarget::IndexY), Ok(())),
        Instruction::Tsx => (transfer_spec(c, c.registers.sp, LoadTarget::IndexX), Ok(())),
        Instruction::Txa => (transfer_spec(c, c.registers.index_x, LoadTarget::Accumulator), Ok(())),
        Instruction::Txs => (with_registers(c, Registers { sp: c.registers.index_x, ..c.registers }), Ok(())),
        Instruction::Tya => (transfer_spec(c, c.registers.index_y, LoadTarget::Accumulator), Ok(())),
        _ => (c, Ok(())),
    }
}

/// The 65C02 instructions that take an address.
#[verifier::opaque]
pub open spec fn ext_address_spec(c: CpuView, instruction: Instruction, arg: Operand, current_pc: u16) -> (CpuView, Result<(), Error>) {
    match instruction {
        Instruction::Bra => cond_branch_spec(c, true, arg),
        Instruction::Stz => store_spec(c, arg, 0),
        Instruction::Tsb => test_bits_spec(c, arg, true),
        Instruction::Trb => test_bits_spec(c, arg, false),
        Instruction::Smb0 => modify_bit_spec(c, arg, 1, true),
        Instruction::Smb1 => modify_bit_spec(c, arg, 2, true),
        Instruction::Smb2 => modify_bit_spec(c, arg, 4, true),
        Instruction::Smb3 => modify_bit_spec(c, arg, 8, true),
        Instruction::Smb4 => modify_bit_spec(c, arg, 16, true),
        Instruction::Smb5 => modify_bit_spec(c, arg, 32, true),
        Instruction::Smb6 => modify_bit_spec(c, arg, 64, true),
        Instruction::Smb7 => modify_bit_spec(c, arg, 128, true),
        Instruction::Rmb0 => modify_bit_spec(c, arg, 1, false),
        Instruction::Rmb1 => modify_bit_spec(c, arg, 2, false),
        Instruction::Rmb2 => modify_bit_spec(c, arg, 4, false),
        Instruction::Rmb3 => modify_bit_spec(c, arg, 8, false),
        Instruction::Rmb4 => modify_bit_spec(c, arg, 16, false),
        Instruction::Rmb5 => modify_bit_spec(c, arg, 32, false),
        Instruction::Rmb6 => modify_bit_spec(c, arg, 64, false),
        Instruction::Rmb7 => modify_bit_spec(c, arg, 128, false),
        _ => (c, Ok(())),
    }
}

/// The 65C02 bit branches.
#[verifier::opaque]
pub open spec fn ext_bit_branch_spec(c: CpuView, instruction: Instruction, arg: Operand, current_pc: u16) -> (CpuView, Result<(), Error>) {
    match instruction {
        Instruction::Bbr0 => branch_bit_spec(c, arg, 1, false),
        Instruction::Bbr1 => branch_bit_spec(c, arg, 2, false),
        Instruction::Bbr2 => branch_bit_spec(c, arg, 4, false),
        Instruction::Bbr3 => branch_bit_spec(c, arg, 8, false),
        Instruction::Bbr4 => branch_bit_spec(c, arg, 16, false),
        Instruction::Bbr5 => branch_bit_spec(c, arg, 32, false),
        Instruction::Bbr6 => branch_bit_spec(c, arg, 64, false),
        Instruction::Bbr7 => branch_bit_spec(c, arg, 128, false),
        Instruction::Bbs0 => branch_bit_spec(c, arg, 1, true),
        Instruction::Bbs1 => branch_bit_spec(c, arg, 2, true),
        Instruction::Bbs2 => branch_bit_spec(c, arg, 4, true),
        Instruction::Bbs3 => branch_bit_spec(c, arg, 8, true),
        Instruction::Bbs4 => branch_bit_spec(c, arg, 16, true),
        Instruction::Bbs5 => branch_bit_spec(c, arg, 32, true),
        Instruction::Bbs6 => branch_bit_spec(c, arg, 64, true),
        Instruction::Bbs7 => branch_bit_spec(c, arg, 128, true),
        _ => (c, Ok(())),
    }
}

/// The 65C02 instructions without an operand.
#[verifier::opaque]
pub open spec fn ext_implied_spec(c: CpuView, instruction: Instruction, arg: Operand, current_pc: u16) -> (CpuView, Result<(), Error>) {
    match instruction {
        Instruction::Phx => (push_spec(c, c.registers.index_x), Ok(())),
        Instruction::Phy => (push_spec(c, c.registers.index_y), Ok(())),
        Instruction::Plx => (pull_spec(c, LoadTarget::IndexX), Ok(())),
        Instruction::Ply => (pull_spec(c, LoadTarget::IndexY), Ok(())),
        Instruction::Stp => ((CpuView { request: ExecutionRequest::Halt, ..c }), Ok(())),
        Instruction::Wai => (c, Err(Error::WaiUnsupported)),
        _ => (c, Ok(())),
    }
}

/// Whether executing a decoded instruction reaches mapped bytes only: the memory operand
/// of a load, arithmetic, logic, compare, BIT, read-modify-write or store instruction, the
/// stack bytes of a push, pull, JSR, RTS or RTI, and the stack and IRQ vector of BRK. A
/// 65C02 instruction on the original 6502 reaches nothing.
pub open spec fn accesses_mapped(c: CpuView, instruction: Instruction, arg: Operand) -> bool {
    if is_65c02_only(instruction) && c.variant != Variant::Wdc65c02 {
        true
    } else {
        match instruction {
            Instruction::Pha | Instruction::Php | Instruction::Phx | Instruction::Phy => stack_mapped(c, 0),
            Instruction::Pla | Instruction::Plp | Instruction::Plx | Instruction::Ply => stack_mapped(c, 1),
            Instruction::Rts => stack_mapped(c, 1) && stack_mapped(c, 2),
            Instruction::Rti => stack_mapped(c, 1) && stack_mapped(c, 2) && stack_mapped(c, 3),
            Instruction::Jsr => stack_mapped(c, 0) && stack_mapped(c, -1),
            Instruction::Brk => entry_mapped(c, VECTOR_IRQ),
            Instruction::Adc | Instruction::Sbc | Instruction::And | Instruction::Ora | Instruction::Eor
            | Instruction::Cmp | Instruction::Cpx | Instruction::Cpy | Instruction::Lda | Instruction::Ldx
            | Instruction::Ldy | Instruction::Bit | Instruction::Inc | Instruction::Dec | Instruction::Asl
            | Instruction::Lsr | Instruction::Rol | Instruction::Ror | Instruction::Sta | Instruction::Stx
            | Instruction::Sty | Instruction::Stz | Instruction::Tsb | Instruction::Trb | Instruction::Smb0
            | Instruction::Smb1 | Instruction::Smb2 | Instruction::Smb3 | Instruction::Smb4 | Instruction::Smb5
            | Instruction::Smb6 | Instruction::Smb7 | Instruction::Rmb0 | Instruction::Rmb1 | Instruction::Rmb2
            | Instruction::Rmb3 | Instruction::Rmb4 | Instruction::Rmb5 | Instruction::Rmb6
            | Instruction::Rmb7 => operand_mapped(c.bus, arg),
            _ => true,
        }
    }
}

impl Mos6502 {
    fn execute_read(&mut self, instruction: Instruction, arg: Operand, current_pc: u16) -> (r: Result<(), Error>)
        requires
            accesses_mapped(old(self)@, instruction, arg),
        ensures
            (final(self)@, r) == read_spec(old(self)@, instruction, arg, current_pc),
            same_map(old(self)@.bus, final(self)@.bus),
            final(self).clock_rate() == old(self).clock_rate(),
    {
        proof {
            reveal(read_spec);
        }
        match instruction {
            Instruction::Adc => self.instr_adc(arg),
            Instruction::Sbc => self.instr_sbc(arg),
            Instruction::And => self.instr_and(arg),
            Instruction::Ora => self.instr_ora(arg),
            Instruction::Eor => self.instr_eor(arg),
            Instruction::Cmp => self.instr_cmp(arg),
            Instruction::Cpx => self.instr_cpx(arg),
            Instruction::Cpy => self.instr_cpy(arg),
            Instruction::Lda => self.instr_ld(arg, LoadTarget::Accumulator),
            Instruction::Ldx => self.instr_ld(arg, LoadTarget::IndexX),
            Instruction::Ldy => self.instr_ld(arg, LoadTarget::IndexY),
            Instruction::Bit => self.instr_bit(arg),
            _ => Ok(()),
        }
    }

    fn execute_modify(&mut self, instruction: Instruction, arg: Operand, current_pc: u16) -> (r: Result<(), Error>)
        requires
            accesses_mapped(old(self)@, instruction, arg),
        ensures
            (final(self)@, r) == modify_spec(old(self)@, instruction, arg, current_pc),
            same_map(old(self)@.bus, final(self)@.bus),
            final(self).clock_rate() == old(self).clock_rate(),
    {
        proof {
            reveal(modify_spec);
        }
        match instruction {
            Instruction::Inc => self.instr_inc(arg),
            Instruction::Dec => self.instr_dec(arg),
            Instruction::Asl => self.instr_asl(arg),
            Instruction::Lsr => self.instr_lsr(arg),
            Instruction::Rol => self.instr_rol(arg),
            Instruction::Ror => self.instr_ror(arg),
            _ => Ok(()),
        }
    }

    fn execute_flow(&mut self, instruction: Instruction, arg: Operand, current_pc: u16) -> (r: Result<(), Error>)
        requires
            accesses_mapped(old(self)@, instruction, arg),
        ensures
            (final(self)@, r) == flow_spec(old(self)@, instruction, arg, current_pc),
            same_map(old(self)@.bus, final(self)@.bus),
            final(self).clock_rate() == old(self).clock_rate(),
    {
        proof {
            reveal(flow_spec);
        }
        match instruction {
            Instruction::Bcc => self.instr_bcc(arg),
            Instruction::Bcs => self.instr_bcs(arg),
            Instruction::Beq => self.instr_beq(arg),
            Instruction::Bmi => self.instr_bmi(arg),
            Instruction::Bne => self.instr_bne(arg),
            Instruction::Bpl => self.instr_bpl(arg),
            Instruction::Bvc => self.instr_bvc(arg),
            Instruction::Bvs => self.instr_bvs(arg),
            Instruction::Jmp => self.instr_jmp(arg),
            Instruction::Jsr => self.instr_jsr(arg, current_pc),
            Instruction::Sta => self.instr_sta(arg),
            Instruction::Stx => self.instr_stx(arg),
            Instruction::Sty => self.instr_sty(arg),
            _ => Ok(()),
        }
    }

    #[verifier::spinoff_prover]
    #[verifier::rlimit(80)]
    fn execute_implied(&mut self, instruction: Instruction, arg: Operand, current_pc: u16) -> (r: Result<(), Error>)
        requires
            accesses_mapped(old(self)@, instruction, arg),
        ensures
            (final(self)@, r) == implied_spec(old(self)@, instruction, arg, current_pc),
            same_map(old(self)@.bus, final(self)@.bus),
            final(self).clock_rate() == old(self).clock_rate(),
    {
        proof {
            reveal(implied_spec);
        }
        match instruction {
            Instruction::Brk => {
                self.instr_brk();
                Ok(())
            },
            Instruction::Clc => {
                self.instr_clc();
                Ok(())
            },
            Instruction::Cld => {
                self.instr_cld();
                Ok(())
            },
            Instruction::Cli => {
                self.instr_cli();
                Ok(())
            },
            Instruction::Clv => {
                self.instr_clv();
                Ok(())
            },
            Instruction::Dex => {
                self.instr_dex();
                Ok(())
            },
            Instruction::Dey => {
                self.instr_dey();
                Ok(())
            },
            Instruction::Inx => {
                self.instr_inx();
                Ok(())
            },
            Instruction::Iny => {
                self.instr_iny();
                Ok(())
            },
            Instruction::Pha => {
                self.instr_pha();
                Ok(())
            },
            Instruction::Php => {
                self.instr_php();
                Ok(())
            },
            Instruction::Pla => {
                self.instr_pla();
                Ok(())
            },
            Instruction::Plp => {
                self.instr_plp();
                Ok(())
            },
            Instruction::Rti => {
                self.instr_rti();
                Ok(())
            },
            Instruction::Rts => {
                self.instr_rts();
                Ok(())
            },
            Instruction::Sec => {
                self.instr_sec();
                Ok(())
            },
            Instruction::Sed => {
                self.instr_sed();
                Ok(())
            },
            Instruction::Sei => {
                self.instr_sei();
                Ok(())
            },
            Instruction::Tax => {
                self.instr_tax();
                Ok(())
            },
            Instruction::Tay => {
                self.instr_tay();
                Ok(())
            },
            Instruction::Tsx => {
                self.instr_tsx();
                Ok(())
            },
            Instruction::Txa => {
                self.instr_txa();
                Ok(())
            },
            Instruction::Txs => {
                self.instr_txs();
                Ok(())
            },
            Instruction::Tya => {
                self.instr_tya();
                Ok(())
            },
            _ => Ok(()),
        }
    }

    fn execute_ext_address(&mut self, instruction: Instruction, arg: Operand, current_pc: u16) -> (r: Result<(), Error>)
        requires
            accesses_mapped(old(self)@, instruction, arg),
            old(self)@.variant == Variant::Wdc65c02,
        ensures
            (final(self)@, r) == ext_address_spec(old(self)@, instruction, arg, current_pc),
            same_map(old(self)@.bus, final(self)@.bus),
            final(self).clock_rate() == old(self).clock_rate(),
    {
        proof {
            reveal(ext_address_spec);
        }
        match instruction {
            Instruction::Bra => self.instr_bra(arg),
            Instruction::Stz => self.instr_stz(arg),
            Instruction::Tsb => self.instr_tsb(arg),
            Instruction::Trb => self.instr_trb(arg),
            Instruction::Smb0 => self.instr_smb(arg, 1),
            Instruction::Smb1 => self.instr_smb(arg, 2),
            Instruction::Smb2 => self.instr_smb(arg, 4),
            Instruction::Smb3 => self.instr_smb(arg, 8),
            Instruction::Smb4 => self.instr_smb(arg, 16),
            Instruction::Smb5 => self.instr_smb(arg, 32),
            Instruction::Smb6 => self.instr_smb(arg, 64),
            Instruction::Smb7 => self.instr_smb(arg, 128),
            Instruction::Rmb0 => self.instr_rmb(arg, 1),
            Instruction::Rmb1 => self.instr_rmb(arg, 2),
            Instruction::Rmb2 => self.instr_rmb(arg, 4),
            Instruction::Rmb3 => self.instr_rmb(arg, 8),
            Instruction::Rmb4 => self.instr_rmb(arg, 16),
            Instruction::Rmb5 => self.instr_rmb(arg, 32),
            Instruction::Rmb6 => self.instr_rmb(arg, 64),
            Instruction::Rmb7 => self.instr_rmb(arg, 128),
            _ => Ok(()),
        }
    }

    fn execute_ext_bit_branch(&mut self, instruction: Instruction, arg: Operand, current_pc: u16) -> (r: Result<(), Error>)
        requires
            accesses_mapped(old(self)@, instruction, arg),
            old(self)@.variant == Variant::Wdc65c02,
        ensures
            (final(self)@, r) == ext_bit_branch_spec(old(self)@, instruction, arg, current_pc),
            same_map(old(self)@.bus, final(self)@.bus),
            final(self).clock_rate() == old(self).clock_rate(),
    {
        proof {
            reveal(ext_bit_branch_spec);
        }
        match instruction {
            Instruction::Bbr0 => self.instr_bbr(arg, 1),
            Instruction::Bbr1 => self.instr_bbr(arg, 2),
            Instruction::Bbr2 => self.instr_bbr(arg, 4),
            Instruction::Bbr3 => self.instr_bbr(arg, 8),
            Instruction::Bbr4 => self.instr_bbr(arg, 16),
            Instruction::Bbr5 => self.instr_bbr(arg, 32),
            Instruction::Bbr6 => self.instr_bbr(arg, 64),
            Instruction::Bbr7 => self.instr_bbr(arg, 128),
            Instruction::Bbs0 => self.instr_bbs(arg, 1),
            Instruction::Bbs1 => self.instr_bbs(arg, 2),
            Instruction::Bbs2 => self.instr_bbs(arg, 4),
            Instruction::Bbs3 => self.instr_bbs(arg, 8),
            Instruction::Bbs4 => self.instr_bbs(arg, 16),
            Instruction::Bbs5 => self.instr_bbs(arg, 32),
            Instruction::Bbs6 => self.instr_bbs(arg, 64),
            Instruction::Bbs7 => self.instr_bbs(arg, 128),
            _ => Ok(()),
        }
    }

    fn execute_ext_implied(&mut self, instruction: Instruction, arg: Operand, current_pc: u16) -> (r: Result<(), Error>)
        requires
            accesses_mapped(old(self)@, instruction, arg),
            old(self)@.variant == Variant::Wdc65c02,
        ensures
            (final(self)@, r) == ext_implied_spec(old(self)@, instruction, arg, current_pc),
            same_map(old(self)@.bus, final(self)@.bus),
            final(self).clock_rate() == old(self).clock_rate(),
    {
        proof {
            reveal(ext_implied_spec);
        }
        match instruction {
            Instruction::Phx => {
                self.instr_phx();
                Ok(())
            },
            Instruction::Phy => {
                self.instr_phy();
                Ok(())
            },
            Instruction::Plx => {
                self.instr_plx();
                Ok(())
            },
            Instruction::Ply => {
                self.instr_ply();
                Ok(())
            },
            Instruction::Stp => {
                self.instr_stp();
                Ok(())
            },
            Instruction::Wai => self.instr_wai(),
            _ => Ok(()),
        }
    }

    /// Executes a decoded instruction with its operand.
    fn execute_instruction(&mut self, instruction: Instruction, arg: Operand, current_pc: u16) -> (r: Result<(), Error>)
        requires
            accesses_mapped(old(self)@, instruction, arg),
        ensures
            (final(self)@, r) == dispatch_spec(old(self)@, instruction, arg, current_pc),
            same_map(old(self)@.bus, final(self)@.bus),
            final(self).clock_rate() == old(self).clock_rate(),
    {
        if is_65c02_only_exec(instruction) && self.variant != Variant::Wdc65c02 {
            return Ok(());
        }
        match instruction {
            Instruction::Adc | Instruction::Sbc | Instruction::And | Instruction::Ora | Instruction::Eor | Instruction::Cmp | Instruction::Cpx | Instruction::Cpy | Instruction::Lda | Instruction::Ldx | Instruction::Ldy | Instruction::Bit => self.execute_read(instruction, arg, current_pc),
            Instruction::Inc | Instruction::Dec | Instruction::Asl | Instruction::Lsr | Instruction::Rol | Instruction::Ror => self.execute_modify(instruction, arg, current_pc),
            Instruction::Bcc | Instruction::Bcs | Instruction::Beq | Instruction::Bmi | Instruction::Bne | Instruction::Bpl | Instruction::Bvc | Instruction::Bvs | Instruction::Jmp | Instruction::Jsr | Instruction::Sta | Instruction::Stx | Instruction::Sty => self.execute_flow(instruction, arg, current_pc),
            Instruction::Brk | Instruction::Clc | Instruction::Cld | Instruction::Cli | Instruction::Clv | Instruction::Dex | Instruction::Dey | Instruction::Inx | Instruction::Iny | Instruction::Pha | Instruction::Php | Instruction::Pla | Instruction::Plp | Instruction::Rti | Instruction::Rts | Instruction::Sec | Instruction::Sed | Instruction::Sei | Instruction::Tax | Instruction::Tay | Instruction::Tsx | Instruction::Txa | Instruction::Txs | Instruction::Tya => self.execute_implied(instruction, arg, current_pc),
            Instruction::Bra | Instruction::Stz | Instruction::Tsb | Instruction::Trb | Instruction::Smb0 | Instruction::Smb1 | Instruction::Smb2 | Instruction::Smb3 | Instruction::Smb4 | Instruction::Smb5 | Instruction::Smb6 | Instruction::Smb7 | Instruction::Rmb0 | Instruction::Rmb1 | Instruction::Rmb2 | Instruction::Rmb3 | Instruction::Rmb4 | Instruction::Rmb5 | Instruction::Rmb6 | Instruction::Rmb7 => self.execute_ext_address(instruction, arg, current_pc),
            Instruction::Bbr0 | Instruction::Bbr1 | Instruction::Bbr2 | Instruction::Bbr3 | Instruction::Bbr4 | Instruction::Bbr5 | Instruction::Bbr6 | Instruction::Bbr7 | Instruction::Bbs0 | Instruction::Bbs1 | Instruction::Bbs2 | Instruction::Bbs3 | Instruction::Bbs4 | Instruction::Bbs5 | Instruction::Bbs6 | Instruction::Bbs7 => self.execute_ext_bit_branch(instruction, arg, current_pc),
            Instruction::Phx | Instruction::Phy | Instruction::Plx | Instruction::Ply | Instruction::Stp | Instruction::Wai => self.execute_ext_implied(instruction, arg, current_pc),
            _ => Ok(()),
        }
    }
}

/// Whether only the 65C02 executes the instruction.
fn is_65c02_only_exec(instruction: Instruction) -> (r: bool)
    ensures
        r == is_65c02_only(instruction),
{
    match instruction {
        Instruction::Bra | Instruction::Phx | Instruction::Phy | Instruction::Plx | Instruction::Ply | Instruction::Stp | Instruction::Stz | Instruction::Trb | Instruction::Tsb | Instruction::Wai | Instruction::Bbr0 | Instruction::Bbr1 | Instruction::Bbr2 | Instruction::Bbr3 | Instruction::Bbr4 | Instruction::Bbr5 | Instruction::Bbr6 | Instruction::Bbr7 | Instruction::Bbs0 | Instruction::Bbs1 | Instruction::Bbs2 | Instruction::Bbs3 | Instruction::Bbs4 | Instruction::Bbs5 | Instruction::Bbs6 | Instruction::Bbs7 | Instruction::Rmb0 | Instruction::Rmb1 | Instruction::Rmb2 | Instruction::Rmb3 | Instruction::Rmb4 | Instruction::Rmb5 | Instruction::Rmb6 | Instruction::Rmb7 | Instruction::Smb0 | Instruction::Smb1 | Instruction::Smb2 | Instruction::Smb3 | Instruction::Smb4 | Instruction::Smb5 | Instruction::Smb6 | Instruction::Smb7 | Instruction::Nop03 | Instruction::Nop13 | Instruction::Nop23 | Instruction::Nop33 | Instruction::Nop43 | Instruction::Nop53 | Instruction::Nop63 | Instruction::Nop73 | Instruction::Nop83 | Instruction::Nop93 | Instruction::NopA3 | Instruction::NopB3 | Instruction::NopC3 | Instruction::NopD3 | Instruction::NopE3 | Instruction::NopF3 | Instruction::Nop0B | Instruction::Nop1B | Instruction::Nop2B | Instruction::Nop3B | Instruction::Nop4B | Instruction::Nop5B | Instruction::Nop6B | Instruction::Nop7B | Instruction::Nop8B | Instruction::Nop9B | Instruction::NopAB | Instruction::NopBB | Instruction::NopEB | Instruction::NopFB | Instruction::Nop02 | Instruction::Nop22 | Instruction::Nop42 | Instruction::Nop62 | Instruction::Nop82 | Instruction::Nope2 | Instruction::Nop44 | Instruction::Nop54 | Instruction::NopD4 | Instruction::Nopf4 | Instruction::NopDc | Instruction::NopFc | Instruction::Nop5c => true,
        _ => false,
    }
}

/// The instructions that read a value: loads, arithmetic, logic, compares and BIT. They succeed on an operand of the kind they use (WAI excepted).
pub proof fn lemma_read_ok(c: CpuView, instruction: Instruction, arg: Operand, pc: u16)
    requires
        group_of(instruction) == InstructionGroup::Read,
        arg is Address || arg is Immediate,
    ensures
        read_spec(c, instruction, arg, pc).1 == (if instruction == Instruction::Wai {
            Err::<(), Error>(Error::WaiUnsupported)
        } else {
            Ok::<(), Error>(())
        }),
{
    reveal(read_spec);
    match instruction {
        Instruction::Adc => {},
        Instruction::Sbc => {},
        Instruction::And => {},
        Instruction::Ora => {},
        Instruction::Eor => {},
        Instruction::Cmp => {},
        Instruction::Cpx => {},
        Instruction::Cpy => {},
        Instruction::Lda => {},
        Instruction::Ldx => {},
        Instruction::Ldy => {},
        Instruction::Bit => {},
        _ => {},
    }
}

/// The read-modify-write instructions: increments, decrements, shifts and rotates. They succeed on an operand of the kind they use (WAI excepted).
pub proof fn lemma_modify_ok(c: CpuView, instruction: Instruction, arg: Operand, pc: u16)
    requires
        group_of(instruction) == InstructionGroup::Modify,
        arg is Address || arg is Accumulator,
    ensures
        modify_spec(c, instruction, arg, pc).1 == (if instruction == Instruction::Wai {
            Err::<(), Error>(Error::WaiUnsupported)
        } else {
            Ok::<(), Error>(())
        }),
{
    reveal(modify_spec);
    match instruction {
        Instruction::Inc => {},
        Instruction::Dec => {},
        Instruction::Asl => {},
        Instruction::Lsr => {},
        Instruction::Rol => {},
        Instruction::Ror => {},
        _ => {},
    }
}

/// Branches, jumps and stores. They succeed on an operand of the kind they use (WAI excepted).
pub proof fn lemma_flow_ok(c: CpuView, instruction: Instruction, arg: Operand, pc: u16)
    requires
        group_of(instruction) == InstructionGroup::Flow,
        arg is Address,
    ensures
        flow_spec(c, instruction, arg, pc).1 == (if instruction == Instruction::Wai {
            Err::<(), Error>(Error::WaiUnsupported)
        } else {
            Ok::<(), Error>(())
        }),
{
    reveal(flow_spec);
    match instruction {
        Instruction::Bcc => {},
        Instruction::Bcs => {},
        Instruction::Beq => {},
        Instruction::Bmi => {},
        Instruction::Bne => {},
        Instruction::Bpl => {},
        Instruction::Bvc => {},
        Instruction::Bvs => {},
        Instruction::Jmp => {},
        Instruction::Jsr => {},
        Instruction::Sta => {},
        Instruction::Stx => {},
        Instruction::Sty => {},
        _ => {},
    }
}

/// The instructions without an operand. They succeed on an operand of the kind they use (WAI excepted).
pub proof fn lemma_implied_ok(c: CpuView, instruction: Instruction, arg: Operand, pc: u16)
    requires
        group_of(instruction) == InstructionGroup::Implied,
        true,
    ensures
        implied_spec(c, instruction, arg, pc).1 == (if instruction == Instruction::Wai {
            Err::<(), Error>(Error::WaiUnsupported)
        } else {
            Ok::<(), Error>(())
        }),
{
    reveal(implied_spec);
    match instruction {
        Instruction::Brk => {},
        Instruction::Clc => {},
        Instruction::Cld => {},
        Instruction::Cli => {},
        Instruction::Clv => {},
        Instruction::Dex => {},
        Instruction::Dey => {},
        Instruction::Inx => {},
        Instruction::Iny => {},
        Instruction::Pha => {},
        Instruction::Php => {},
        Instruction::Pla => {},
        Instruction::Plp => {},
        Instruction::Rti => {},
        Instruction::Rts => {},
        Instruction::Sec => {},
        Instruction::Sed => {},
        Instruction::Sei => {},
        Instruction::Tax => {},
        Instruction::Tay => {},
        Instruction::Tsx => {},
        Instruction::Txa => {},
        Instruction::Txs => {},
        Instruction::Tya => {},
        _ => {},
    }
}

/// The 65C02 instructions that take an address. They succeed on an operand of the kind they use (WAI excepted).
pub proof fn lemma_ext_address_ok(c: CpuView, instruction: Instruction, arg: Operand, pc: u16)
    requires
        group_of(instruction) == InstructionGroup::ExtAddress,
        arg is Address,
    ensures
        ext_address_spec(c, instruction, arg, pc).1 == (if instruction == Instruction::Wai {
            Err::<(), Error>(Error::WaiUnsupported)
        } else {
            Ok::<(), Error>(())
        }),
{
    reveal(ext_address_spec);
    match instruction {
        Instruction::Bra => {},
        Instruction::Stz => {},
        Instruction::Tsb => {},
        Instruction::Trb => {},
        Instruction::Smb0 => {},
        Instruction::Smb1 => {},
        Instruction::Smb2 => {},
        Instruction::Smb3 => {},
        Instruction::Smb4 => {},
        Instruction::Smb5 => {},
        Instruction::Smb6 => {},
        Instruction::Smb7 => {},
        Instruction::Rmb0 => {},
        Instruction::Rmb1 => {},
        Instruction::Rmb2 => {},
        Instruction::Rmb3 => {},
        Instruction::Rmb4 => {},
        Instruction::Rmb5 => {},
        Instruction::Rmb6 => {},
        Instruction::Rmb7 => {},
        _ => {},
    }
}

/// The 65C02 bit branches. They succeed on an operand of the kind they use (WAI excepted).
pub proof fn lemma_ext_bit_branch_ok(c: CpuView, instruction: Instruction, arg: Operand, pc: u16)
    requires
        group_of(instruction) == InstructionGroup::ExtBitBranch,
        arg is ZeroPageRel,
    ensures
        ext_bit_branch_spec(c, instruction, arg, pc).1 == (if instruction == Instruction::Wai {
            Err::<(), Error>(Error::WaiUnsupported)
        } else {
            Ok::<(), Error>(())
        }),
{
    reveal(ext_bit_branch_spec);
    match instruction {
        Instruction::Bbr0 => {},
        Instruction::Bbr1 => {},
        Instruction::Bbr2 => {},
        Instruction::Bbr3 => {},
        Instruction::Bbr4 => {},
        Instruction::Bbr5 => {},
        Instruction::Bbr6 => {},
        Instruction::Bbr7 => {},
        Instruction::Bbs0 => {},
        Instruction::Bbs1 => {},
        Instruction::Bbs2 => {},
        Instruction::Bbs3 => {},
        Instruction::Bbs4 => {},
        Instruction::Bbs5 => {},
        Instruction::Bbs6 => {},
        Instruction::Bbs7 => {},
        _ => {},
    }
}

/// The 65C02 instructions without an operand. They succeed on an operand of the kind they use (WAI excepted).
pub proof fn lemma_ext_implied_ok(c: CpuView, instruction: Instruction, arg: Operand, pc: u16)
    requires
        group_of(instruction) == InstructionGroup::ExtImplied,
        true,
    ensures
        ext_implied_spec(c, instruction, arg, pc).1 == (if instruction == Instruction::Wai {
            Err::<(), Error>(Error::WaiUnsupported)
        } else {
            Ok::<(), Error>(())
        }),
{
    reveal(ext_implied_spec);
    match instruction {
        Instruction::Phx => {},
        Instruction::Phy => {},
        Instruction::Plx => {},
        Instruction::Ply => {},
        Instruction::Stp => {},
        Instruction::Wai => {},
        _ => {},
    }
}

/// An instruction given an operand of a kind it can use succeeds, except WAI on the 65C02.
pub proof fn lemma_dispatch_ok(c: CpuView, instruction: Instruction, arg: Operand, mode: AddressingMode, pc: u16)
    requires
        accepts(instruction, mode),
        operand_fits(arg, mode),
    ensures
        dispatch_spec(c, instruction, arg, pc).1 == (if instruction == Instruction::Wai && c.variant
            == Variant::Wdc65c02 {
            Err::<(), Error>(Error::WaiUnsupported)
        } else {
            Ok::<(), Error>(())
        }),
{
    if !(is_65c02_only(instruction) && c.variant != Variant::Wdc65c02) {
        match group_of(instruction) {
        InstructionGroup::Read => lemma_read_ok(c, instruction, arg, pc),
        InstructionGroup::Modify => lemma_modify_ok(c, instruction, arg, pc),
        InstructionGroup::Flow => lemma_flow_ok(c, instruction, arg, pc),
        InstructionGroup::Implied => lemma_implied_ok(c, instruction, arg, pc),
        InstructionGroup::ExtAddress => lemma_ext_address_ok(c, instruction, arg, pc),
        InstructionGroup::ExtBitBranch => lemma_ext_bit_branch_ok(c, instruction, arg, pc),
        InstructionGroup::ExtImplied => lemma_ext_implied_ok(c, instruction, arg, pc),
            InstructionGroup::NoOperation => {},
        }
    }
}

} // verus!

verus! {

/// The NMI line is edge-triggered: a non-maskable interrupt is taken on the first step that
/// sees the line raised after a step that saw it released; the program counter and flags
/// are pushed and the NMI vector is taken. Each step remembers whether it saw the line
/// raised. The second component tells whether the NMI was taken.
pub open spec fn nmi_spec(c: CpuView) -> (CpuView, bool) {
    if c.nmi.len() > 0 && !c.nmi_previous_cycle {
        let c1 = push_spec(push16_spec(c, c.registers.pc), status_byte_spec(c.registers.status));
        (CpuView { nmi_previous_cycle: true, ..enter_handler(c1, VECTOR_NMI, true) }, true)
    } else {
        (CpuView { nmi_previous_cycle: c.nmi.len() > 0, ..c }, false)
    }
}

/// An NMI line held raised is taken once: after the step that takes it, no later check
/// takes it again while the line stays raised; once the line is released and raised
/// again, it is taken again.
pub proof fn lemma_nmi_edge(c: CpuView)
    ensures
        nmi_spec(c).1 <==> c.nmi.len() > 0 && !c.nmi_previous_cycle,
        nmi_spec(c).0.nmi == c.nmi,
        nmi_spec(c).0.nmi_previous_cycle == (c.nmi.len() > 0),
        c.nmi.len() > 0 ==> !nmi_spec(nmi_spec(c).0).1,
        c.nmi.len() == 0 ==> !nmi_spec(c).1 && !nmi_spec(c).0.nmi_previous_cycle,
{
}

/// CMP, CPX and CPY compare a register with the operand as unsigned bytes: carry is set
/// exactly when the register is at least the operand, zero exactly when they are equal, and
/// negative exactly when bit 7 of their difference (modulo 256) is set; the registers, the
/// other flags and the memory stay as they were.
pub proof fn lemma_compare_flags(c: CpuView, instruction: Instruction, arg: Operand, pc: u16)
    requires
        instruction == Instruction::Cmp || instruction == Instruction::Cpx || instruction == Instruction::Cpy,
        operand_byte(c, arg) is Some,
    ensures
        ({
            let a = if instruction == Instruction::Cmp {
                c.registers.accumulator
            } else if instruction == Instruction::Cpx {
                c.registers.index_x
            } else {
                c.registers.index_y
            };
            let b = operand_byte(c, arg)->Some_0;
            let after = read_spec(c, instruction, arg, pc);
            let s = after.0.registers.status;
            &&& after.1 is Ok
            &&& s.carry <==> a >= b
            &&& s.zero <==> a == b
            &&& s.negative <==> (a - b + 256) % 256 >= 128
            &&& s.decimal_mode == c.registers.status.decimal_mode
            &&& s.brk_command == c.registers.status.brk_command
            &&& s.irq_disable == c.registers.status.irq_disable
            &&& s.overflow == c.registers.status.overflow
            &&& after.0 == (CpuView { registers: Registers { status: s, ..c.registers }, ..c })
        }),
{
    reveal(read_spec);
}

/// A step of the processor (the interrupt check, then the instruction) keeps the NMI line
/// and what the check saw of it; so while the line stays raised, the step after one that
/// saw it raised takes no NMI.
pub proof fn lemma_nmi_held(c: CpuView)
    requires
        c.nmi.len() > 0,
    ensures
        instruction_spec(interrupt_spec(c)).0.nmi == c.nmi,
        instruction_spec(interrupt_spec(c)).0.nmi_previous_cycle,
        !nmi_spec(instruction_spec(interrupt_spec(c)).0).1,
{
    let c1 = interrupt_spec(c);
    let pc = c1.registers.pc;
    let op = opcode_table(bus_read(c1.bus, pc));
    let c2 = with_pc(c1, wrap_add16(pc, 1));
    let (arg, extra) = operand_spec(c2.registers, c2.bus, op.mode);
    let c3 = with_pc(c2, wrap_add16(c2.registers.pc, operand_length(op.mode) as int));
    let c4 = add_cycles(c3, op.cycles + extra);
    lemma_dispatch_keeps_nmi(c4, op.instruction, arg, pc);
}

/// No instruction touches the NMI line or what the interrupt check saw of it.
proof fn lemma_dispatch_keeps_nmi(c: CpuView, instruction: Instruction, arg: Operand, pc: u16)
    ensures
        dispatch_spec(c, instruction, arg, pc).0.nmi == c.nmi,
        dispatch_spec(c, instruction, arg, pc).0.nmi_previous_cycle == c.nmi_previous_cycle,
{
    lemma_read_keeps_nmi(c, instruction, arg, pc);
    lemma_modify_keeps_nmi(c, instruction, arg, pc);
    lemma_flow_keeps_nmi(c, instruction, arg, pc);
    lemma_implied_keeps_nmi(c, instruction, arg, pc);
    lemma_ext_address_keeps_nmi(c, instruction, arg, pc);
    lemma_ext_bit_branch_keeps_nmi(c, instruction, arg, pc);
    lemma_ext_implied_keeps_nmi(c, instruction, arg, pc);
}

#[verifier::spinoff_prover]
#[verifier::rlimit(60)]
proof fn lemma_read_keeps_nmi(c: CpuView, instruction: Instruction, arg: Operand, pc: u16)
    ensures
        read_spec(c, instruction, arg, pc).0.nmi == c.nmi,
        read_spec(c, instruction, arg, pc).0.nmi_previous_cycle == c.nmi_previous_cycle,
{
    reveal(read_spec);
}

#[verifier::spinoff_prover]
#[verifier::rlimit(60)]
proof fn lemma_modify_keeps_nmi(c: CpuView, instruction: Instruction, arg: Operand, pc: u16)
    ensures
        modify_spec(c, instruction, arg, pc).0.nmi == c.nmi,
        modify_spec(c, instruction, arg, pc).0.nmi_previous_cycle == c.nmi_previous_cycle,
{
    reveal(modify_spec);
}

#[verifier::spinoff_prover]
#[verifier::rlimit(60)]
proof fn lemma_flow_keeps_nmi(c: CpuView, instruction: Instruction, arg: Operand, pc: u16)
    ensures
        flow_spec(c, instruction, arg, pc).0.nmi == c.nmi,
        flow_spec(c, instruction, arg, pc).0.nmi_previous_cycle == c.nmi_previous_cycle,
{
    reveal(flow_spec);
}

#[verifier::spinoff_prover]
#[verifier::rlimit(60)]
proof fn lemma_implied_keeps_nmi(c: CpuView, instruction: Instruction, arg: Operand, pc: u16)
    ensures
        implied_spec(c, instruction, arg, pc).0.nmi == c.nmi,
        implied_spec(c, instruction, arg, pc).0.nmi_previous_cycle == c.nmi_previous_cycle,
{
    reveal(implied_spec);
}

#[verifier::spinoff_prover]
#[verifier::rlimit(60)]
proof fn lemma_ext_address_keeps_nmi(c: CpuView, instruction: Instruction, arg: Operand, pc: u16)
    ensures
        ext_address_spec(c, instruction, arg, pc).0.nmi == c.nmi,
        ext_address_spec(c, instruction, arg, pc).0.nmi_previous_cycle == c.nmi_previous_cycle,
{
    reveal(ext_address_spec);
}

#[verifier::spinoff_prover]
#[verifier::rlimit(60)]
proof fn lemma_ext_bit_branch_keeps_nmi(c: CpuView, instruction: Instruction, arg: Operand, pc: u16)
    ensures
        ext_bit_branch_spec(c, instruction, arg, pc).0.nmi == c.nmi,
        ext_bit_branch_spec(c, instruction, arg, pc).0.nmi_previous_cycle == c.nmi_previous_cycle,
{
    reveal(ext_bit_branch_spec);
}

#[verifier::spinoff_prover]
#[verifier::rlimit(60)]
proof fn lemma_ext_implied_keeps_nmi(c: CpuView, instruction: Instruction, arg: Operand, pc: u16)
    ensures
        ext_implied_spec(c, instruction, arg, pc).0.nmi == c.nmi,
        ext_implied_spec(c, instruction, arg, pc).0.nmi_previous_cycle == c.nmi_previous_cycle,
{
    reveal(ext_implied_spec);
}

/// An interrupt request is taken when one is raised and interrupts are enabled: the
/// program counter and flags are pushed and the IRQ vector is taken.
pub open spec fn irq_spec(c: CpuView) -> CpuView {
    if c.irq.len() > 0 && !c.registers.status.irq_disable {
        let c1 = push_spec(push16_spec(c, c.registers.pc), status_byte_spec(c.registers.status));
        enter_handler(c1, VECTOR_IRQ, true)
    } else {
        c
    }
}

/// The interrupt check before each instruction: an NMI, otherwise an IRQ.
pub open spec fn interrupt_spec(c: CpuView) -> CpuView {
    let (c1, taken) = nmi_spec(c);
    if taken {
        c1
    } else {
        irq_spec(c1)
    }
}

/// Whether taking an NMI, if one is taken, reaches mapped bytes only.
pub open spec fn nmi_mapped(c: CpuView) -> bool {
    c.nmi.len() > 0 && !c.nmi_previous_cycle ==> entry_mapped(c, VECTOR_NMI)
}

/// Whether taking an IRQ, if one is taken, reaches mapped bytes only.
pub open spec fn irq_mapped(c: CpuView) -> bool {
    c.irq.len() > 0 && !c.registers.status.irq_disable ==> entry_mapped(c, VECTOR_IRQ)
}

/// Whether the interrupt check reaches mapped bytes only.
pub open spec fn interrupt_mapped(c: CpuView) -> bool {
    let (c1, taken) = nmi_spec(c);
    if taken {
        nmi_mapped(c)
    } else {
        irq_mapped(c1)
    }
}

/// Whether executing the instruction at the program counter reaches mapped bytes only:
/// its opcode, its operand bytes and pointer, and what the instruction itself reaches.
pub open spec fn instruction_mapped(c1: CpuView) -> bool {
    let pc = c1.registers.pc;
    let op = opcode_table(bus_read(c1.bus, pc));
    let regs = Registers { pc: wrap_add16(pc, 1), ..c1.registers };
    &&& mapped(c1.bus, pc)
    &&& operand_bytes_mapped(regs, c1.bus, op.mode)
    &&& accesses_mapped(c1, op.instruction, operand_spec(regs, c1.bus, op.mode).0)
}

/// Whether one step reaches mapped bytes only, the interrupt it takes and the instruction
/// it then executes; any other step reaches an address that no bank answers.
pub open spec fn step_mapped(c0: CpuView) -> bool {
    interrupt_mapped(c0) && instruction_mapped(interrupt_spec(c0))
}

/// One instruction step: take a pending interrupt, fetch and decode the opcode at the
/// program counter, read its operand, count its cycles (one more when indexing crosses a
/// page) and execute it.
pub open spec fn execute_single_spec(c0: CpuView) -> (CpuView, Result<(), Error>) {
    instruction_spec(interrupt_spec(c0))
}

/// Executing the instruction at the program counter: the opcode is fetched and decoded, its
/// operand read, the cycles counted, and the instruction carried out.
pub open spec fn instruction_spec(c1: CpuView) -> (CpuView, Result<(), Error>) {
    let pc = c1.registers.pc;
    let op = opcode_table(bus_read(c1.bus, pc));
    let c2 = with_pc(c1, wrap_add16(pc, 1));
    let (arg, extra) = operand_spec(c2.registers, c2.bus, op.mode);
    let c3 = with_pc(c2, wrap_add16(c2.registers.pc, operand_length(op.mode) as int));
    let c4 = add_cycles(c3, op.cycles + extra);
    dispatch_spec(c4, op.instruction, arg, pc)
}

/// The state after a reset: registers cleared, interrupts disabled, the program counter
/// loaded from the reset vector, no recorded calls, no pending interrupts and the cycle
/// counter at zero.
pub open spec fn reset_spec(c: CpuView) -> CpuView {
    CpuView {
        registers: Registers {
            pc: bus_read_u16(c.bus, VECTOR_RESET),
            status: Status { irq_disable: true, ..registers_zero().status },
            ..registers_zero()
        },
        stack_frame: Seq::empty(),
        irq: Seq::empty(),
        nmi: Seq::empty(),
        nmi_previous_cycle: false,
        cycles: 0,
        ..c
    }
}

impl Mos6502 {
    /// Resets the processor: registers cleared, interrupts disabled and the program counter
    /// loaded from the reset vector at 0xfffc.
    pub fn reset(&mut self)
        requires
            word_mapped(old(self)@.bus, VECTOR_RESET),
        ensures
            final(self)@ == reset_spec(old(self)@),
            final(self).clock_rate() == old(self).clock_rate(),
    {
        self.state.registers = Registers::new();
        let pc = self.read_word(VECTOR_RESET);
        self.state.registers.pc = pc;
        self.state.registers.status.irq_disable = true;
        self.state.stack_frame.clear();
        self.irq_state = IrqState { irq: Vec::new(), nmi: Vec::new(), nmi_previous_cycle: false };
        self.set_cycle_count(0);
    }

    fn set_cycle_count(&mut self, num: u64)
        ensures
            final(self)@ == (CpuView { cycles: num, ..old(self)@ }),
            final(self).clock_rate() == old(self).clock_rate(),
    {
        self.cycle_count = num;
    }

    fn check_nmi(&mut self) -> (taken: bool)
        requires
            nmi_mapped(old(self)@),
        ensures
            (final(self)@, taken) == nmi_spec(old(self)@),
            same_map(old(self)@.bus, final(self)@.bus),
            final(self).clock_rate() == old(self).clock_rate(),
    {
        // only an edge triggers: the line raised now and released at the previous check
        let raised = self.irq_state.nmi.len() > 0;
        let nmi_trigger = raised && !self.irq_state.nmi_previous_cycle;
        if nmi_trigger {
            let pc = self.state.registers.pc;
            let status = self.state.registers.status.to_byte();
            self.push16(pc);
            self.push(status);
            self.enter_handler(VECTOR_NMI, true);
            self.irq_state.nmi_previous_cycle = true;
            true
        } else {
            self.irq_state.nmi_previous_cycle = raised;
            false
        }
    }

    fn check_irqs(&mut self)
        requires
            irq_mapped(old(self)@),
        ensures
            final(self)@ == irq_spec(old(self)@),
            same_map(old(self)@.bus, final(self)@.bus),
            final(self).clock_rate() == old(self).clock_rate(),
    {
        let irq_trigger = self.irq_state.irq.len() > 0 && !self.state.registers.status.irq_disable;
        if irq_trigger {
            let pc = self.state.registers.pc;
            let status = self.state.registers.status.to_byte();
            self.push16(pc);
            self.push(status);
            self.enter_handler(VECTOR_IRQ, true);
        }
    }

    /// Takes a pending interrupt: an NMI when its line has just been raised, else an IRQ
    /// unless interrupts are disabled.
    pub fn check_interrupts(&mut self)
        requires
            interrupt_mapped(old(self)@),
        ensures
            final(self)@ == interrupt_spec(old(self)@),
            same_map(old(self)@.bus, final(self)@.bus),
            final(self).clock_rate() == old(self).clock_rate(),
    {
        if !self.check_nmi() {
            self.check_irqs();
        }
    }

    /// Executes one instruction, after taking a pending interrupt.
    pub fn execute_single(&mut self) -> (r: Result<(), Error>)
        requires
            step_mapped(old(self)@),
        ensures
            (final(self)@, r) == execute_single_spec(old(self)@),
            same_map(old(self)@.bus, final(self)@.bus),
            final(self).clock_rate() == old(self).clock_rate(),
    {
        self.check_interrupts();
        self.execute_next_instruction()
    }

    /// Executes the instruction at the program counter, interrupts already taken.
    pub fn execute_next_instruction(&mut self) -> (r: Result<(), Error>)
        requires
            instruction_mapped(old(self)@),
        ensures
            (final(self)@, r) == instruction_spec(old(self)@),
            same_map(old(self)@.bus, final(self)@.bus),
            final(self).clock_rate() == old(self).clock_rate(),
    {
        let current_pc = self.state.registers.pc;
        let next_instruction = self.state.next_instruction();
        proof {
            lemma_opcode_table_consistent(next_instruction);
        }
        match decode_instruction(next_instruction) {
            Some(opcode) => {
                let (arg, extra_cycles) = self.state.read_arg(&opcode);
                self.inc_cycles((opcode.cycles + extra_cycles) as u64);
                self.execute_instruction(opcode.instruction, arg, current_pc)
            },
            None => Err(Error::UnsupportedInstruction { opcode: next_instruction }),
        }
    }
}

} // verus!

verus! {

/// Whether an addressing mode yields an address operand.
pub open spec fn yields_address(mode: AddressingMode) -> bool {
    match mode {
        AddressingMode::Absolute | AddressingMode::ZeroPage | AddressingMode::ZeroPageIndirect
        | AddressingMode::IndexX | AddressingMode::IndexY | AddressingMode::ZeroPageX
        | AddressingMode::ZeroPageY | AddressingMode::AbsX | AddressingMode::AbsY
        | AddressingMode::Relative | AddressingMode::Indirect | AddressingMode::AbsXIndirect => true,
        _ => false,
    }
}

/// Whether an instruction can use the operand that an addressing mode yields.
pub open spec fn accepts(instruction: Instruction, mode: AddressingMode) -> bool {
    match instruction {
        Instruction::Adc | Instruction::Sbc | Instruction::And | Instruction::Ora | Instruction::Eor
        | Instruction::Cmp | Instruction::Cpx | Instruction::Cpy | Instruction::Lda | Instruction::Ldx
        | Instruction::Ldy | Instruction::Bit => yields_address(mode) || mode == AddressingMode::Immediate,
        Instruction::Inc | Instruction::Dec | Instruction::Asl | Instruction::Lsr | Instruction::Rol
        | Instruction::Ror => yields_address(mode) || mode == AddressingMode::Accum,
        Instruction::Bcc | Instruction::Bcs | Instruction::Beq | Instruction::Bmi | Instruction::Bne
        | Instruction::Bpl | Instruction::Bvc | Instruction::Bvs | Instruction::Bra | Instruction::Jmp
        | Instruction::Jsr | Instruction::Sta | Instruction::Stx | Instruction::Sty | Instruction::Stz
        | Instruction::Tsb | Instruction::Trb | Instruction::Smb0 | Instruction::Smb1 | Instruction::Smb2
        | Instruction::Smb3 | Instruction::Smb4 | Instruction::Smb5 | Instruction::Smb6 | Instruction::Smb7
        | Instruction::Rmb0 | Instruction::Rmb1 | Instruction::Rmb2 | Instruction::Rmb3 | Instruction::Rmb4
        | Instruction::Rmb5 | Instruction::Rmb6 | Instruction::Rmb7 => yields_address(mode),
        Instruction::Bbr0 | Instruction::Bbr1 | Instruction::Bbr2 | Instruction::Bbr3 | Instruction::Bbr4
        | Instruction::Bbr5 | Instruction::Bbr6 | Instruction::Bbr7 | Instruction::Bbs0 | Instruction::Bbs1
        | Instruction::Bbs2 | Instruction::Bbs3 | Instruction::Bbs4 | Instruction::Bbs5 | Instruction::Bbs6
        | Instruction::Bbs7 => mode == AddressingMode::ZeroPageRel,
        _ => true,
    }
}

/// Every entry of the opcode table pairs its instruction with an addressing mode the
/// instruction can use.
pub proof fn lemma_opcode_table_accepts(b: u8)
    ensures
        accepts(opcode_table(b).instruction, opcode_table(b).mode),
{
}

/// The kind of operand each addressing mode yields.
pub proof fn lemma_operand_kind(regs: Registers, bus: Seq<SlaveView>, mode: AddressingMode)
    ensures
        yields_address(mode) ==> operand_spec(regs, bus, mode).0 is Address,
        mode == AddressingMode::Immediate ==> operand_spec(regs, bus, mode).0 is Immediate,
        mode == AddressingMode::Accum ==> operand_spec(regs, bus, mode).0 is Accumulator,
        mode == AddressingMode::ZeroPageRel ==> operand_spec(regs, bus, mode).0 is ZeroPageRel,
{
}

/// The kind of operand an addressing mode yields, as an instruction sees it.
pub open spec fn operand_fits(arg: Operand, mode: AddressingMode) -> bool {
    &&& yields_address(mode) ==> arg is Address
    &&& mode == AddressingMode::Immediate ==> arg is Immediate
    &&& mode == AddressingMode::Accum ==> arg is Accumulator
    &&& mode == AddressingMode::ZeroPageRel ==> arg is ZeroPageRel
}

/// An instruction step fails only on WAI, and only on the 65C02, where WAI is not
/// implemented; every other opcode byte executes.
pub proof fn lemma_execute_single_result(c0: CpuView)
    ensures
        ({
            let c1 = interrupt_spec(c0);
            let op = opcode_table(bus_read(c1.bus, c1.registers.pc));
            execute_single_spec(c0).1 == (if op.instruction == Instruction::Wai && c0.variant
                == Variant::Wdc65c02 {
                Err::<(), Error>(Error::WaiUnsupported)
            } else {
                Ok::<(), Error>(())
            })
        }),
{
    let c1 = interrupt_spec(c0);
    let pc = c1.registers.pc;
    let b = bus_read(c1.bus, pc);
    let op = opcode_table(b);
    let c2 = with_pc(c1, wrap_add16(pc, 1));
    let (arg, extra) = operand_spec(c2.registers, c2.bus, op.mode);
    let c3 = with_pc(c2, wrap_add16(c2.registers.pc, operand_length(op.mode) as int));
    let c4 = add_cycles(c3, op.cycles + extra);
    lemma_opcode_table_accepts(b);
    lemma_operand_kind(c2.registers, c2.bus, op.mode);
    lemma_dispatch_ok(c4, op.instruction, arg, op.mode, pc);
    assert(c4.variant == c0.variant);
}

} // verus!

verus! {

/// A byte pushed on a RAM stack page is the byte pulled next, and the stack pointer
/// returns to where it was.
pub proof fn lemma_push_pop(c: CpuView, value: u8)
    requires
        mapped(c.bus, stack_address(c.registers.sp)),
        writable(c.bus, stack_address(c.registers.sp)),
    ensures
        pop_spec(push_spec(c, value)).1 == value,
        pop_spec(push_spec(c, value)).0.registers == c.registers,
{
    let a = stack_address(c.registers.sp);
    assert(mapped(c.bus, a));
    lemma_read_after_write(c.bus, a, value, a);
    assert(wrap8(wrap8(c.registers.sp - 1) + 1) == c.registers.sp);
}

/// A word pushed on a RAM stack page is the word pulled next, and the stack pointer
/// returns to where it was.
pub proof fn lemma_push16_pop16(c: CpuView, value: u16)
    requires
        mapped(c.bus, stack_address(c.registers.sp)),
        mapped(c.bus, stack_address(wrap8(c.registers.sp - 1))),
        writable(c.bus, stack_address(c.registers.sp)),
        writable(c.bus, stack_address(wrap8(c.registers.sp - 1))),
    ensures
        pop16_spec(push16_spec(c, value)).1 == value,
        pop16_spec(push16_spec(c, value)).0.registers == c.registers,
{
    let sp = c.registers.sp;
    let hi = (value / 256) as u8;
    let lo = (value % 256) as u8;
    let a1 = stack_address(sp);
    let a2 = stack_address(wrap8(sp - 1));
    assert(mapped(c.bus, a1) && mapped(c.bus, a2));
    let b1 = bus_write(c.bus, a1, hi);
    lemma_read_after_write(c.bus, a1, hi, a2);
    lemma_read_after_write(c.bus, a1, hi, a1);
    lemma_write_same_shape(c.bus, a1, hi);
    lemma_same_shape_mapped(c.bus, b1);
    assert(mapped(b1, a1) && mapped(b1, a2));
    lemma_writable_after_write(c.bus, a1, hi, a2);
    let b2 = bus_write(b1, a2, lo);
    lemma_read_after_write(b1, a2, lo, a2);
    lemma_read_after_write(b1, a2, lo, a1);
    assert(a1 != a2);
}

/// JSR followed by RTS (with RAM under the stack) comes back to the instruction after the
/// JSR, with the stack pointer and the recorded calls as they were.
pub proof fn lemma_jsr_rts(c: CpuView, target: u16, current_pc: u16)
    requires
        mapped(c.bus, stack_address(c.registers.sp)),
        mapped(c.bus, stack_address(wrap8(c.registers.sp - 1))),
        writable(c.bus, stack_address(c.registers.sp)),
        writable(c.bus, stack_address(wrap8(c.registers.sp - 1))),
    ensures
        jsr_spec(c, Operand::Address(target), current_pc).1 is Ok,
        rts_spec(jsr_spec(c, Operand::Address(target), current_pc).0).registers.pc == c.registers.pc,
        rts_spec(jsr_spec(c, Operand::Address(target), current_pc).0).registers.sp == c.registers.sp,
        rts_spec(jsr_spec(c, Operand::Address(target), current_pc).0).stack_frame == c.stack_frame,
{
    let c1 = CpuView { stack_frame: c.stack_frame.push(current_pc), ..c };
    lemma_push16_pop16(c1, wrap_add16(c.registers.pc, -1));
    let j = jsr_spec(c, Operand::Address(target), current_pc).0;
    assert(j.stack_frame.drop_last() =~= c.stack_frame);
}

/// PHP followed by PLP (with RAM under the stack) restores the flags, with break clear.
pub proof fn lemma_php_plp(c: CpuView)
    requires
        mapped(c.bus, stack_address(c.registers.sp)),
        writable(c.bus, stack_address(c.registers.sp)),
    ensures
        plp_spec(php_spec(c)).registers.status == (Status { brk_command: false, ..c.registers.status }),
        plp_spec(php_spec(c)).registers.sp == c.registers.sp,
{
    let b = status_byte_spec(c.registers.status);
    lemma_push_pop(c, b | 0x10u8);
    lemma_status_byte_bits(c.registers.status);
    let v = b | 0x10u8;
    assert(forall|n: u8| n != 4 && n < 8 ==> (((v >> n) & 1u8 == 1u8) == ((b >> n) & 1u8 == 1u8))) by (bit_vector)
        requires
            v == b | 0x10u8,
    ;
}

} // verus!
