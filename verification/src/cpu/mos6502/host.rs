use vstd::prelude::*;

use crate::cpu::mos6502::bus::{bus_read, bus_read_u16, cleared_slave, lemma_same_shape_mapped, lemma_write_same_map, mapped, same_map, word_mapped, Bus};
use crate::cpu::mos6502::bus::wrap_add16;
use crate::cpu::mos6502::opcodes::{decode_instruction, lemma_opcode_table_consistent, opcode_table, Instruction};
use crate::cpu::mos6502::state::{operand_bytes_mapped, operand_spec, Operand, Registers};
use crate::cpu::mos6502::{group_of, with_write, CpuView, ExecutionRequest, InstructionGroup, Mos6502};
use crate::targets::ExecutionState;

verus! {

/// The processor after a run of bus writes, in order.
pub open spec fn with_writes(c: CpuView, writes: Seq<(u16, u8)>) -> CpuView
    decreases writes.len(),
{
    if writes.len() == 0 {
        c
    } else {
        with_write(with_writes(c, writes.drop_last()), writes.last().0, writes.last().1)
    }
}

/// Writes to mapped addresses map the same addresses as before.
pub proof fn lemma_with_writes_same_map(c: CpuView, writes: Seq<(u16, u8)>)
    requires
        forall|k: int| 0 <= k < writes.len() ==> mapped(c.bus, #[trigger] writes[k].0),
    ensures
        same_map(c.bus, with_writes(c, writes).bus),
    decreases writes.len(),
{
    if writes.len() > 0 {
        let rest = writes.drop_last();
        assert forall|k: int| 0 <= k < rest.len() implies mapped(c.bus, #[trigger] rest[k].0) by {
            assert(rest[k] == writes[k]);
        }
        lemma_with_writes_same_map(c, rest);
        let mid = with_writes(c, rest).bus;
        assert(mapped(c.bus, writes[writes.len() - 1].0));
        assert(mapped(mid, writes.last().0));
        lemma_write_same_map(mid, writes.last().0, writes.last().1);
    }
}

/// Two runs of writes are one run.
pub proof fn lemma_with_writes_concat(c: CpuView, a: Seq<(u16, u8)>, b: Seq<(u16, u8)>)
    ensures
        with_writes(with_writes(c, a), b) == with_writes(c, a + b),
    decreases b.len(),
{
    if b.len() == 0 {
        assert(a + b =~= a);
    } else {
        lemma_with_writes_concat(c, a, b.drop_last());
        assert((a + b).drop_last() =~= a + b.drop_last());
    }
}

impl Mos6502 {
    /// The byte at `address` on the bus.
    pub fn read_bus(&self, address: u16) -> (v: u8)
        requires
            mapped(self@.bus, address),
        ensures
            v == bus_read(self@.bus, address),
    {
        self.read_byte(address)
    }

    /// Writes `data` to `address` on the bus (a ROM bank ignores it).
    pub fn write_bus(&mut self, address: u16, data: u8)
        requires
            mapped(old(self)@.bus, address),
        ensures
            final(self)@ == with_write(old(self)@, address, data),
            same_map(old(self)@.bus, final(self)@.bus),
            final(self).clock_rate() == old(self).clock_rate(),
    {
        self.write_byte(address, data)
    }

    /// Zeroes the memory bank connected `i`-th (the RAM on a cold reset).
    pub fn clear_bank(&mut self, i: usize)
        ensures
            same_map(old(self)@.bus, final(self)@.bus),
            final(self)@ == (CpuView {
                bus: if i < old(self)@.bus.len() {
                    old(self)@.bus.update(i as int, cleared_slave(old(self)@.bus[i as int]))
                } else {
                    old(self)@.bus
                },
                ..old(self)@
            }),
            final(self).clock_rate() == old(self).clock_rate(),
    {
        if i < self.state.bus.len() {
            self.state.bus.clear_bank(i);
            proof {
                lemma_same_shape_mapped(old(self)@.bus, self@.bus);
            }
        }
    }

    /// The bus.
    pub fn bus(&self) -> (r: &Bus)
        ensures
            r@ == self@.bus,
    {
        &self.state.bus
    }

    /// The little-endian word at `address` on the bus.
    pub fn read_bus_u16(&self, address: u16) -> (v: u16)
        requires
            word_mapped(self@.bus, address),
        ensures
            v == bus_read_u16(self@.bus, address),
    {
        self.read_word(address)
    }

    /// Writes a run of bytes to the bus, in order.
    pub fn write_bus_all(&mut self, writes: &[(u16, u8)])
        requires
            forall|k: int| 0 <= k < writes@.len() ==> mapped(old(self)@.bus, #[trigger] writes@[k].0),
        ensures
            final(self)@ == with_writes(old(self)@, writes@),
            same_map(old(self)@.bus, final(self)@.bus),
            final(self).clock_rate() == old(self).clock_rate(),
    {
        let mut i: usize = 0;
        while i < writes.len()
            invariant
                i <= writes@.len(),
                self@ == with_writes(old(self)@, writes@.take(i as int)),
                same_map(old(self)@.bus, self@.bus),
                forall|k: int| 0 <= k < writes@.len() ==> mapped(old(self)@.bus, #[trigger] writes@[k].0),
                self.clock_rate() == old(self).clock_rate(),
            decreases writes@.len() - i,
        {
            let (a, d) = writes[i];
            self.write_bus(a, d);
            assert(writes@.take(i + 1).drop_last() =~= writes@.take(i as int));
            i += 1;
        }
        assert(writes@.take(i as int) =~= writes@);
    }
}

} // verus!

verus! {

/// What the run loop does next.
#[derive(Debug, Clone, Copy, PartialEq, Eq, Structural)]
pub enum RunDecision {
    /// Execute instructions.
    Run,
    /// Wait (about 10 ms) and ask again.
    Wait,
    /// Leave the run loop.
    Exit,
}

/// The run loop's check before each instruction: at a breakpoint, or on a break request,
/// the processor waits; a resume request is cleared and the processor runs.
pub open spec fn breakpoint_check_spec(c: CpuView) -> (CpuView, RunDecision) {
    let hit = c.request == ExecutionRequest::ForceBreak || c.breakpoints.contains(c.registers.pc);
    if !hit {
        (c, RunDecision::Run)
    } else if c.request == ExecutionRequest::Resume {
        (CpuView { execution_state: ExecutionState::Running, request: ExecutionRequest::Idle, ..c }, RunDecision::Run)
    } else {
        (c, RunDecision::Wait)
    }
}

/// A processor held at a breakpoint (or by a break request) stays held, check after
/// check, until a resume request arrives; that check runs it and clears the request.
pub proof fn lemma_breakpoint_holds(c: CpuView)
    requires
        c.breakpoints.contains(c.registers.pc) || c.request == ExecutionRequest::ForceBreak,
    ensures
        c.request != ExecutionRequest::Resume ==> breakpoint_check_spec(c) == (c, RunDecision::Wait)
            && breakpoint_check_spec(breakpoint_check_spec(c).0) == (c, RunDecision::Wait),
        c.request == ExecutionRequest::Resume ==> breakpoint_check_spec(c).1 == RunDecision::Run
            && breakpoint_check_spec(c).0.request == ExecutionRequest::Idle
            && breakpoint_check_spec(c).0.execution_state == ExecutionState::Running,
{
}

impl Mos6502 {
    /// The run loop's check before each batch of instructions: a halt or shutdown request
    /// stops the processor; a stopped processor waits for a resume request (which it
    /// clears, and runs) or leaves on a shutdown request.
    pub fn check_execution_request(&mut self) -> (r: RunDecision)
        ensures
            final(self).clock_rate() == old(self).clock_rate(),
            ({
                let c = old(self)@;
                let stopped = c.request == ExecutionRequest::Halt || c.request == ExecutionRequest::Shutdown
                    || c.execution_state == ExecutionState::Stopped;
                if !stopped {
                    r == RunDecision::Run && final(self)@ == c
                } else if c.request == ExecutionRequest::Shutdown {
                    r == RunDecision::Exit && final(self)@ == (CpuView { execution_state: ExecutionState::Stopped, ..c })
                } else if c.request == ExecutionRequest::Resume {
                    r == RunDecision::Run && final(self)@ == (CpuView {
                        execution_state: ExecutionState::Running,
                        request: ExecutionRequest::Idle,
                        ..c
                    })
                } else {
                    r == RunDecision::Wait && final(self)@ == (CpuView { execution_state: ExecutionState::Stopped, ..c })
                }
            }),
    {
        let req = self.execution_request();
        if req == ExecutionRequest::Halt || req == ExecutionRequest::Shutdown {
            self.set_execution_state(ExecutionState::Stopped);
        }
        if self.execution_state() == ExecutionState::Stopped {
            if req == ExecutionRequest::Shutdown {
                return RunDecision::Exit;
            }
            if req == ExecutionRequest::Resume {
                self.set_execution_request(ExecutionRequest::Idle);
                self.set_execution_state(ExecutionState::Running);
                return RunDecision::Run;
            }
            return RunDecision::Wait;
        }
        RunDecision::Run
    }

    /// The run loop's check before each instruction: at a breakpoint, or on a break
    /// request, the processor waits for a resume request (which it clears, and runs).
    pub fn check_breakpoint(&mut self) -> (r: RunDecision)
        ensures
            final(self).clock_rate() == old(self).clock_rate(),
            (final(self)@, r) == breakpoint_check_spec(old(self)@),
    {
        let req = self.execution_request();
        let hit = req == ExecutionRequest::ForceBreak || self.at_breakpoint();
        if !hit {
            return RunDecision::Run;
        }
        if req == ExecutionRequest::Resume {
            self.set_execution_request(ExecutionRequest::Idle);
            self.set_execution_state(ExecutionState::Running);
            return RunDecision::Run;
        }
        RunDecision::Wait
    }
}

} // verus!

verus! {

/// The instruction at the program counter and its operand.
pub open spec fn next_access_spec(c: CpuView) -> (Instruction, Operand) {
    let pc = c.registers.pc;
    let op = opcode_table(bus_read(c.bus, pc));
    let regs = Registers { pc: wrap_add16(pc, 1), ..c.registers };
    (op.instruction, operand_spec(regs, c.bus, op.mode).0)
}

/// Whether fetching the instruction at the program counter reaches mapped bytes only: its
/// opcode, its operand bytes and the pointer its addressing mode follows.
pub open spec fn fetch_mapped(c: CpuView) -> bool {
    let pc = c.registers.pc;
    &&& mapped(c.bus, pc)
    &&& operand_bytes_mapped(Registers { pc: wrap_add16(pc, 1), ..c.registers }, c.bus, opcode_table(bus_read(c.bus, pc)).mode)
}

/// Whether an instruction reads the memory its operand names.
pub open spec fn reads_operand(i: Instruction) -> bool {
    group_of(i) == InstructionGroup::Read || group_of(i) == InstructionGroup::Modify || i == Instruction::Tsb || i
        == Instruction::Trb
}

/// Whether an instruction writes the memory its operand names.
pub open spec fn writes_operand(i: Instruction) -> bool {
    group_of(i) == InstructionGroup::Modify || i == Instruction::Sta || i == Instruction::Stx || i == Instruction::Sty
        || i == Instruction::Stz || i == Instruction::Tsb || i == Instruction::Trb
}

/// Whether an instruction reads the memory its operand names.
pub fn instruction_reads_operand(i: Instruction) -> (r: bool)
    ensures
        r == reads_operand(i),
{
    match i {
        Instruction::Adc | Instruction::Sbc | Instruction::And | Instruction::Ora | Instruction::Eor | Instruction::Cmp
        | Instruction::Cpx | Instruction::Cpy | Instruction::Lda | Instruction::Ldx | Instruction::Ldy | Instruction::Bit
        | Instruction::Inc | Instruction::Dec | Instruction::Asl | Instruction::Lsr | Instruction::Rol | Instruction::Ror
        | Instruction::Tsb | Instruction::Trb => true,
        _ => false,
    }
}

/// Whether an instruction writes the memory its operand names.
pub fn instruction_writes_operand(i: Instruction) -> (r: bool)
    ensures
        r == writes_operand(i),
{
    match i {
        Instruction::Inc | Instruction::Dec | Instruction::Asl | Instruction::Lsr | Instruction::Rol | Instruction::Ror
        | Instruction::Sta | Instruction::Stx | Instruction::Sty | Instruction::Stz | Instruction::Tsb | Instruction::Trb => true,
        _ => false,
    }
}

impl Mos6502 {
    /// The instruction at the program counter and its operand, without executing it.
    pub fn next_access(&mut self) -> (r: (Instruction, Operand))
        requires
            fetch_mapped(old(self)@),
        ensures
            r == next_access_spec(old(self)@),
            final(self)@ == old(self)@,
            final(self).clock_rate() == old(self).clock_rate(),
    {
        let regs = self.state.registers;
        let b = self.read_byte(regs.pc);
        proof {
            lemma_opcode_table_consistent(b);
        }
        let opcode = decode_instruction(b).unwrap();
        self.state.registers.pc = regs.pc.wrapping_add(1);
        let (arg, _) = self.state.read_arg(&opcode);
        self.state.registers = regs;
        (opcode.instruction, arg)
    }
}

} // verus!
