use vstd::prelude::*;
use vstd::string::StringExecFns;

use crate::cpu::mos6502::bus::{bus_read, bus_read_u16, mapped, wrap16, wrap_add16, SlaveView};
use crate::cpu::mos6502::opcodes::{decode_instruction, lemma_opcode_table_consistent, opcode_table, operand_length, AddressingMode};
use crate::cpu::mos6502::state::signed8;
use crate::cpu::mos6502::Mos6502;
use crate::debug::{InstructionInfo, Register, RegisterSize, State};
use crate::errors::Error;
use crate::utils::text::{ascii_chars, ascii_string, hex_padded, hex_text, hex_value, is_ascii_bytes, is_hex_digit, lemma_hex_padded_ascii, lemma_hex_padded_value, lemma_hex_text_value, pow16, push_bytes, push_hex};

verus! {

/// The operand of the instruction at `pc` as a disassembler writes it.
pub open spec fn operand_text(bus: Seq<SlaveView>, pc: u16, mode: AddressingMode) -> Seq<u8> {
    let b1 = bus_read(bus, wrap_add16(pc, 1));
    let b2 = bus_read(bus, wrap_add16(pc, 2));
    let w = bus_read_u16(bus, wrap_add16(pc, 1));
    match mode {
        AddressingMode::Immediate => seq![35u8, 36u8] + hex_text(b1 as nat),
        AddressingMode::Absolute => seq![36u8] + hex_padded(w as nat, 4),
        AddressingMode::ZeroPage => hex_padded(b1 as nat, 2),
        AddressingMode::Accum => Seq::empty(),
        AddressingMode::Implied => Seq::empty(),
        AddressingMode::IndexX => seq![40u8] + hex_padded(b1 as nat, 2) + seq![44u8, 88u8, 41u8],
        AddressingMode::IndexY => seq![40u8] + hex_padded(b1 as nat, 2) + seq![41u8, 44u8, 89u8],
        AddressingMode::ZeroPageX => hex_padded(b1 as nat, 2) + seq![44u8, 88u8],
        AddressingMode::ZeroPageY => hex_padded(b1 as nat, 2) + seq![44u8, 89u8],
        AddressingMode::AbsX => hex_padded(w as nat, 4) + seq![44u8, 88u8],
        AddressingMode::AbsY => hex_padded(w as nat, 4) + seq![44u8, 89u8],
        AddressingMode::Relative => hex_text(wrap16(pc + 2 + signed8(b1)) as nat),
        AddressingMode::Indirect => seq![40u8] + hex_text(w as nat) + seq![41u8],
        AddressingMode::ZeroPageIndirect => seq![40u8, 122u8, 112u8, 40u8] + hex_padded(b1 as nat, 2) + seq![41u8, 41u8],
        AddressingMode::ZeroPageRel => seq![122u8, 112u8, 40u8] + hex_padded(b1 as nat, 2) + seq![41u8, 44u8, 32u8]
            + hex_padded(b2 as nat, 2),
        AddressingMode::Nop2 => Seq::empty(),
        AddressingMode::Nop3 => Seq::empty(),
        AddressingMode::AbsXIndirect => seq![40u8] + hex_padded(w as nat, 2) + seq![44u8, 88u8, 41u8],
    }
}

/// The operand of an absolute instruction, plain or indexed by X or Y, names the address
/// the instruction uses: the little-endian word in the two bytes after the opcode, in four
/// hexadecimal digits, after a '$' in the plain form and before ",X" or ",Y" in the indexed
/// ones.
pub proof fn lemma_absolute_operand_text(bus: Seq<SlaveView>, pc: u16)
    ensures
        ({
            let w = bus_read(bus, wrap_add16(pc, 1)) as nat + 256 * bus_read(bus, wrap_add16(pc, 2)) as nat;
            let plain = operand_text(bus, pc, AddressingMode::Absolute);
            let x = operand_text(bus, pc, AddressingMode::AbsX);
            let y = operand_text(bus, pc, AddressingMode::AbsY);
            &&& plain.len() == 5 && plain[0] == 36u8 && hex_value(plain.subrange(1, 5)) == w
            &&& forall|i: int| 1 <= i < 5 ==> is_hex_digit(#[trigger] plain[i])
            &&& x.len() == 6 && hex_value(x.take(4)) == w && x[4] == 44u8 && x[5] == 88u8
            &&& forall|i: int| 0 <= i < 4 ==> is_hex_digit(#[trigger] x[i])
            &&& y.len() == 6 && hex_value(y.take(4)) == w && y[4] == 44u8 && y[5] == 89u8
            &&& forall|i: int| 0 <= i < 4 ==> is_hex_digit(#[trigger] y[i])
            &&& ({
                let ind = operand_text(bus, pc, AddressingMode::Indirect);
                &&& ind.len() >= 3 && ind[0] == 40u8 && ind[ind.len() - 1] == 41u8
                &&& hex_value(ind.subrange(1, ind.len() - 1)) == w
            })
            &&& ({
                let ixi = operand_text(bus, pc, AddressingMode::AbsXIndirect);
                &&& ixi.len() >= 6 && ixi[0] == 40u8 && hex_value(ixi.subrange(1, ixi.len() - 3)) == w
                &&& ixi[ixi.len() - 3] == 44u8 && ixi[ixi.len() - 2] == 88u8 && ixi[ixi.len() - 1] == 41u8
            })
        }),
{
    let b1 = bus_read(bus, wrap_add16(pc, 1));
    let b2 = bus_read(bus, wrap_add16(pc, 2));
    assert(wrap_add16(wrap_add16(pc, 1), 1) == wrap_add16(pc, 2));
    let w = bus_read_u16(bus, wrap_add16(pc, 1));
    assert(w as nat == b1 as nat + 256 * b2 as nat);
    assert(pow16(4) == 0x10000) by {
        assert(pow16(0) == 1);
        assert(pow16(1) == 16);
        assert(pow16(2) == 0x100);
        assert(pow16(3) == 0x1000);
    }
    lemma_hex_padded_value(w as nat, 4);
    let h = hex_padded(w as nat, 4);
    let tp = operand_text(bus, pc, AddressingMode::Absolute);
    let tx = operand_text(bus, pc, AddressingMode::AbsX);
    let ty = operand_text(bus, pc, AddressingMode::AbsY);
    assert(tp =~= seq![36u8] + h);
    assert(tx =~= h + seq![44u8, 88u8]);
    assert(ty =~= h + seq![44u8, 89u8]);
    assert(tp.subrange(1, 5) =~= h);
    assert(tx.take(4) =~= h);
    assert(ty.take(4) =~= h);
    lemma_hex_text_value(w as nat);
    let ind = operand_text(bus, pc, AddressingMode::Indirect);
    assert(ind.subrange(1, ind.len() - 1) =~= hex_text(w as nat));
    let ixi = operand_text(bus, pc, AddressingMode::AbsXIndirect);
    lemma_hex_padded_value(w as nat, 2);
    assert(ixi.subrange(1, ixi.len() - 3) =~= hex_padded(w as nat, 2));
    assert forall|i: int| 1 <= i < 5 implies is_hex_digit(#[trigger] tp[i]) by {
        assert(tp[i] == h[i - 1]);
    }
    assert forall|i: int| 0 <= i < 4 implies is_hex_digit(#[trigger] tx[i]) by {
        assert(tx[i] == h[i]);
    }
    assert forall|i: int| 0 <= i < 4 implies is_hex_digit(#[trigger] ty[i]) by {
        assert(ty[i] == h[i]);
    }
}

/// The operand of a one-byte-operand instruction names what the instruction uses: the byte
/// after the opcode in two hexadecimal digits for the zero page forms ("nn", "nn,X", "nn,Y",
/// "(nn,X)", "(nn),Y"), after "#$" for an immediate value, and for a branch the target
/// address, the address after the branch moved by the byte read as signed.
pub proof fn lemma_byte_operand_text(bus: Seq<SlaveView>, pc: u16)
    ensures
        ({
            let b = bus_read(bus, wrap_add16(pc, 1)) as nat;
            let zp = operand_text(bus, pc, AddressingMode::ZeroPage);
            let zx = operand_text(bus, pc, AddressingMode::ZeroPageX);
            let zy = operand_text(bus, pc, AddressingMode::ZeroPageY);
            let ix = operand_text(bus, pc, AddressingMode::IndexX);
            let iy = operand_text(bus, pc, AddressingMode::IndexY);
            let imm = operand_text(bus, pc, AddressingMode::Immediate);
            let rel = operand_text(bus, pc, AddressingMode::Relative);
            let offset: int = if b < 128 { b as int } else { b - 256 };
            &&& zp.len() == 2 && hex_value(zp) == b
            &&& forall|i: int| 0 <= i < 2 ==> is_hex_digit(#[trigger] zp[i])
            &&& zx.len() == 4 && hex_value(zx.take(2)) == b && zx[2] == 44u8 && zx[3] == 88u8
            &&& zy.len() == 4 && hex_value(zy.take(2)) == b && zy[2] == 44u8 && zy[3] == 89u8
            &&& ix.len() == 6 && ix[0] == 40u8 && hex_value(ix.subrange(1, 3)) == b && ix[3] == 44u8 && ix[4] == 88u8
                && ix[5] == 41u8
            &&& iy.len() == 6 && iy[0] == 40u8 && hex_value(iy.subrange(1, 3)) == b && iy[3] == 41u8 && iy[4] == 44u8
                && iy[5] == 89u8
            &&& imm.len() >= 3 && imm[0] == 35u8 && imm[1] == 36u8 && hex_value(imm.skip(2)) == b
            &&& forall|i: int| 2 <= i < imm.len() ==> is_hex_digit(#[trigger] imm[i])
            &&& hex_value(rel) == (pc as int + 2 + offset) % 65536
            &&& forall|i: int| 0 <= i < rel.len() ==> is_hex_digit(#[trigger] rel[i])
        }),
{
    let b = bus_read(bus, wrap_add16(pc, 1));
    assert(pow16(2) == 0x100) by {
        assert(pow16(0) == 1);
        assert(pow16(1) == 16);
    }
    lemma_hex_padded_value(b as nat, 2);
    lemma_hex_text_value(b as nat);
    let target = wrap16(pc + 2 + signed8(b));
    lemma_hex_text_value(target as nat);
    let h = hex_padded(b as nat, 2);
    let zp = operand_text(bus, pc, AddressingMode::ZeroPage);
    let zx = operand_text(bus, pc, AddressingMode::ZeroPageX);
    let zy = operand_text(bus, pc, AddressingMode::ZeroPageY);
    let ix = operand_text(bus, pc, AddressingMode::IndexX);
    let iy = operand_text(bus, pc, AddressingMode::IndexY);
    let imm = operand_text(bus, pc, AddressingMode::Immediate);
    assert(zx.take(2) =~= h);
    assert(zy.take(2) =~= h);
    assert(ix.subrange(1, 3) =~= h);
    assert(iy.subrange(1, 3) =~= h);
    assert(imm.skip(2) =~= hex_text(b as nat));
    assert forall|i: int| 2 <= i < imm.len() implies is_hex_digit(#[trigger] imm[i]) by {
        assert(imm[i] == hex_text(b as nat)[i - 2]);
    }
    assert(target as int == (pc as int + 2 + signed8(b)) % 65536);
}

/// The bytes of the instruction at `pc`: the opcode and its operand.
pub open spec fn instruction_bytes_at(bus: Seq<SlaveView>, pc: u16) -> Seq<u8> {
    let op = opcode_table(bus_read(bus, pc));
    Seq::new((1 + operand_length(op.mode)) as nat, |k: int| bus_read(bus, wrap_add16(pc, k)))
}

/// The text of the instruction at `pc`: the mnemonic, a space and the operand.
pub open spec fn instruction_text_at(bus: Seq<SlaveView>, pc: u16) -> Seq<char> {
    let op = opcode_table(bus_read(bus, pc));
    op.name@ + seq![' '] + ascii_chars(operand_text(bus, pc, op.mode))
}

/// The address of the instruction after the one at `pc`.
pub open spec fn next_instruction_address(bus: Seq<SlaveView>, pc: u16) -> u16 {
    wrap_add16(pc, 1 + operand_length(opcode_table(bus_read(bus, pc)).mode))
}

/// Whether the bytes of the instruction at `pc` are mapped: its opcode and its operand.
pub open spec fn instruction_bytes_mapped(bus: Seq<SlaveView>, pc: u16) -> bool {
    &&& mapped(bus, pc)
    &&& forall|k: int| 1 <= k <= operand_length(opcode_table(bus_read(bus, pc)).mode) ==> #[trigger] mapped(bus, wrap_add16(pc, k))
}

/// Whether the bytes of the `n` instructions from `pc` on are mapped.
pub open spec fn listing_mapped(bus: Seq<SlaveView>, pc: u16, n: nat) -> bool
    decreases n,
{
    n == 0 || (instruction_bytes_mapped(bus, pc) && listing_mapped(bus, next_instruction_address(bus, pc), (n - 1) as nat))
}

/// The `n` instructions from `pc` on, each with its address, text and bytes.
pub open spec fn disassembly(bus: Seq<SlaveView>, pc: u16, n: nat) -> Seq<(usize, Seq<char>, Seq<u8>)>
    decreases n,
{
    if n == 0 {
        Seq::empty()
    } else {
        seq![(pc as usize, instruction_text_at(bus, pc), instruction_bytes_at(bus, pc))] + disassembly(
            bus,
            next_instruction_address(bus, pc),
            (n - 1) as nat,
        )
    }
}

/// What a list of instruction records holds.
pub open spec fn instruction_infos_view(v: Seq<InstructionInfo>) -> Seq<(usize, Seq<char>, Seq<u8>)> {
    v.map_values(|i: InstructionInfo| (i.address, i.instruction@, i.opcode@))
}

proof fn lemma_ascii_append(a: Seq<u8>, b: Seq<u8>)
    requires
        is_ascii_bytes(a),
        is_ascii_bytes(b),
    ensures
        is_ascii_bytes(a + b),
{
    assert forall|i: int| 0 <= i < (a + b).len() implies #[trigger] (a + b)[i] < 128 by {
        if i < a.len() {
            assert((a + b)[i] == a[i]);
        } else {
            assert((a + b)[i] == b[i - a.len()]);
        }
    }
}

impl Mos6502 {
    /// The `num` bytes from `address` on (the address wrapping past 0xffff).
    pub fn read_memory(&self, address: usize, num: usize) -> (r: Result<Vec<u8>, Error>)
        requires
            forall|k: int| 0 <= k < num ==> #[trigger] mapped(self@.bus, ((address + k) % 65536) as u16),
        ensures
            r matches Ok(v) && v@ == Seq::new(num as nat, |k: int| bus_read(self@.bus, ((address + k) % 65536) as u16)),
    {
        let mut out: Vec<u8> = Vec::new();
        let mut n: usize = 0;
        while n < num
            invariant
                n <= num,
                forall|k: int| 0 <= k < num ==> #[trigger] mapped(self@.bus, ((address + k) % 65536) as u16),
                out@ == Seq::new(n as nat, |k: int| bus_read(self@.bus, ((address + k) % 65536) as u16)),
            decreases num - n,
        {
            let a = (address % 65536 + n % 65536) % 65536;
            proof {
                vstd::arithmetic::div_mod::lemma_add_mod_noop(address as int, n as int, 65536);
            }
            out.push(self.read_byte(a as u16));
            assert(out@ =~= Seq::new((n + 1) as nat, |k: int| bus_read(self@.bus, ((address + k) % 65536) as u16)));
            n += 1;
        }
        Ok(out)
    }

    /// The operand text of the instruction at `pc`.
    fn operand_bytes(&self, pc: u16, mode: AddressingMode) -> (r: Vec<u8>)
        requires
            forall|k: int| 1 <= k <= operand_length(mode) ==> #[trigger] mapped(self@.bus, wrap_add16(pc, k)),
        ensures
            r@ == operand_text(self@.bus, pc, mode),
            is_ascii_bytes(r@),
    {
        let len: u16 = match mode {
            AddressingMode::Accum | AddressingMode::Implied => 0,
            AddressingMode::Absolute | AddressingMode::AbsX | AddressingMode::AbsY | AddressingMode::Indirect
            | AddressingMode::ZeroPageRel | AddressingMode::Nop3 | AddressingMode::AbsXIndirect => 2,
            _ => 1,
        };
        assert(len == operand_length(mode));
        let b1 = if len >= 1 {
            assert(mapped(self@.bus, wrap_add16(pc, 1)));
            self.read_byte(pc.wrapping_add(1))
        } else {
            0
        };
        let b2 = if len >= 2 {
            assert(mapped(self@.bus, wrap_add16(pc, 2)));
            self.read_byte(pc.wrapping_add(2))
        } else {
            0
        };
        let w = if len >= 2 {
            assert(mapped(self@.bus, wrap_add16(pc, 1)) && mapped(self@.bus, wrap_add16(pc, 2)));
            self.read_word(pc.wrapping_add(1))
        } else {
            0
        };
        let mut out: Vec<u8> = Vec::new();
        match mode {
            AddressingMode::Immediate => {
                push_bytes(&mut out, &[35u8, 36u8]);
                push_hex(&mut out, b1 as u64, 0);
            },
            AddressingMode::Absolute => {
                push_bytes(&mut out, &[36u8]);
                push_hex(&mut out, w as u64, 4);
            },
            AddressingMode::ZeroPage => {
                push_hex(&mut out, b1 as u64, 2);
            },
            AddressingMode::Accum => {},
            AddressingMode::Implied => {},
            AddressingMode::IndexX => {
                push_bytes(&mut out, &[40u8]);
                push_hex(&mut out, b1 as u64, 2);
                push_bytes(&mut out, &[44u8, 88u8, 41u8]);
            },
            AddressingMode::IndexY => {
                push_bytes(&mut out, &[40u8]);
                push_hex(&mut out, b1 as u64, 2);
                push_bytes(&mut out, &[41u8, 44u8, 89u8]);
            },
            AddressingMode::ZeroPageX => {
                push_hex(&mut out, b1 as u64, 2);
                push_bytes(&mut out, &[44u8, 88u8]);
            },
            AddressingMode::ZeroPageY => {
                push_hex(&mut out, b1 as u64, 2);
                push_bytes(&mut out, &[44u8, 89u8]);
            },
            AddressingMode::AbsX => {
                push_hex(&mut out, w as u64, 4);
                push_bytes(&mut out, &[44u8, 88u8]);
            },
            AddressingMode::AbsY => {
                push_hex(&mut out, w as u64, 4);
                push_bytes(&mut out, &[44u8, 89u8]);
            },
            AddressingMode::Relative => {
                let target: u16 = if b1 < 128 {
                    pc.wrapping_add(2).wrapping_add(b1 as u16)
                } else {
                    pc.wrapping_add(2).wrapping_sub((256 - b1 as u16) as u16)
                };
                assert(target == wrap16(pc + 2 + signed8(b1)));
                push_hex(&mut out, target as u64, 0);
            },
            AddressingMode::Indirect => {
                push_bytes(&mut out, &[40u8]);
                push_hex(&mut out, w as u64, 0);
                push_bytes(&mut out, &[41u8]);
            },
            AddressingMode::ZeroPageIndirect => {
                push_bytes(&mut out, &[40u8, 122u8, 112u8, 40u8]);
                push_hex(&mut out, b1 as u64, 2);
                push_bytes(&mut out, &[41u8, 41u8]);
            },
            AddressingMode::ZeroPageRel => {
                push_bytes(&mut out, &[122u8, 112u8, 40u8]);
                push_hex(&mut out, b1 as u64, 2);
                push_bytes(&mut out, &[41u8, 44u8, 32u8]);
                push_hex(&mut out, b2 as u64, 2);
            },
            AddressingMode::Nop2 => {},
            AddressingMode::Nop3 => {},
            AddressingMode::AbsXIndirect => {
                push_bytes(&mut out, &[40u8]);
                push_hex(&mut out, w as u64, 2);
                push_bytes(&mut out, &[44u8, 88u8, 41u8]);
            },
        }
        proof {
            lemma_hex_padded_ascii(b1 as nat, 0);
            lemma_hex_padded_ascii(b1 as nat, 2);
            lemma_hex_padded_ascii(b2 as nat, 2);
            lemma_hex_padded_ascii(w as nat, 0);
            lemma_hex_padded_ascii(w as nat, 2);
            lemma_hex_padded_ascii(w as nat, 4);
            lemma_hex_padded_ascii(wrap16(pc + 2 + signed8(b1)) as nat, 0);
            assert(hex_padded(b1 as nat, 0) == hex_text(b1 as nat));
            assert(hex_padded(w as nat, 0) == hex_text(w as nat));
            assert(hex_padded(wrap16(pc + 2 + signed8(b1)) as nat, 0) == hex_text(wrap16(pc + 2 + signed8(b1)) as nat));
            assert(out@ =~= operand_text(self@.bus, pc, mode));
            assert forall|i: int| 0 <= i < out@.len() implies #[trigger] out@[i] < 128 by {
                assert(is_ascii_bytes(hex_padded(b1 as nat, 2)));
                assert(is_ascii_bytes(hex_padded(b2 as nat, 2)));
                assert(is_ascii_bytes(hex_padded(w as nat, 2)));
                assert(is_ascii_bytes(hex_padded(w as nat, 4)));
                assert(is_ascii_bytes(hex_text(b1 as nat)));
                assert(is_ascii_bytes(hex_text(w as nat)));
                assert(is_ascii_bytes(hex_text(wrap16(pc + 2 + signed8(b1)) as nat)));
            }
        }
        out
    }

    /// Disassembles `num` instructions from `address` on (its low 16 bits), each with its
    /// address, text and bytes.
    pub fn get_instructions(&self, address: usize, num: usize) -> (r: Result<Vec<InstructionInfo>, Error>)
        requires
            listing_mapped(self@.bus, (address % 65536) as u16, num as nat),
        ensures
            r matches Ok(v) && instruction_infos_view(v@) == disassembly(self@.bus, (address % 65536) as u16, num as nat),
    {
        let mut instructions: Vec<InstructionInfo> = Vec::new();
        let mut pc: u16 = (address % 65536) as u16;
        let mut i: usize = 0;
        while i < num
            invariant
                i <= num,
                listing_mapped(self@.bus, pc, (num - i) as nat),
                instruction_infos_view(instructions@) + disassembly(self@.bus, pc, (num - i) as nat)
                    == disassembly(self@.bus, (address % 65536) as u16, num as nat),
            decreases num - i,
        {
            assert(instruction_bytes_mapped(self@.bus, pc));
            let val = self.read_byte(pc);
            proof {
                lemma_opcode_table_consistent(val);
            }
            let opcode = decode_instruction(val).unwrap();
            let arg_len: u16 = (opcode.instruction_bytes - 1) as u16;
            let arg = self.operand_bytes(pc, opcode.mode);
            let mut text = opcode.name.to_owned();
            text.append(" ");
            text.append(ascii_string(arg).as_str());
            proof {
                reveal_strlit(" ");
            }
            let mut bytes: Vec<u8> = Vec::new();
            let mut k: u16 = 0;
            while k <= arg_len
                invariant
                    k <= arg_len + 1,
                    arg_len <= 2,
                    arg_len == operand_length(opcode_table(bus_read(self@.bus, pc)).mode),
                    instruction_bytes_mapped(self@.bus, pc),
                    bytes@ == Seq::new(k as nat, |j: int| bus_read(self@.bus, wrap_add16(pc, j))),
                decreases arg_len + 1 - k,
            {
                assert(mapped(self@.bus, wrap_add16(pc, k as int)));
                bytes.push(self.read_byte(pc.wrapping_add(k)));
                assert(bytes@ =~= Seq::new((k + 1) as nat, |j: int| bus_read(self@.bus, wrap_add16(pc, j))));
                k += 1;
            }
            let info = InstructionInfo { address: pc as usize, instruction: text, opcode: bytes };
            let ghost before = instructions@;
            proof {
                assert(instruction_bytes_at(self@.bus, pc) =~= info.opcode@);
                assert(info.instruction@ =~= instruction_text_at(self@.bus, pc));
            }
            instructions.push(info);
            proof {
                assert(instruction_infos_view(instructions@) =~= instruction_infos_view(before).push(
                    (pc as usize, instruction_text_at(self@.bus, pc), instruction_bytes_at(self@.bus, pc)),
                ));
                let rest = disassembly(self@.bus, next_instruction_address(self@.bus, pc), (num - i - 1) as nat);
                assert(instruction_infos_view(before) + disassembly(self@.bus, pc, (num - i) as nat)
                    =~= instruction_infos_view(instructions@) + rest);
            }
            pc = pc.wrapping_add(1 + arg_len);
            i += 1;
        }
        assert(instruction_infos_view(instructions@) + disassembly(self@.bus, pc, 0) =~= instruction_infos_view(instructions@));
        Ok(instructions)
    }

    /// The registers, flags, program counter and run state as a debugger shows them.
    pub fn get_state(&self) -> (r: Result<State, Error>)
        ensures
            r matches Ok(s) && {
                &&& s.registers@.len() == 4
                &&& s.registers@[0].name@ == seq!['A'] && s.registers@[0].value == self@.registers.accumulator
                    && s.registers@[0].size == RegisterSize::Size8
                &&& s.registers@[1].name@ == seq!['I', 'D', 'X', '_', 'X'] && s.registers@[1].value
                    == self@.registers.index_x && s.registers@[1].size == RegisterSize::Size8
                &&& s.registers@[2].name@ == seq!['I', 'D', 'X', '_', 'Y'] && s.registers@[2].value
                    == self@.registers.index_y && s.registers@[2].size == RegisterSize::Size8
                &&& s.registers@[3].name@ == seq!['S', 'P'] && s.registers@[3].value == self@.registers.sp
                    && s.registers@[3].size == RegisterSize::Size8
                &&& s.flags@.len() == 7
                &&& s.flags@[0].0@ == seq!['B'] && s.flags@[0].1 == self@.registers.status.brk_command
                &&& s.flags@[1].0@ == seq!['C'] && s.flags@[1].1 == self@.registers.status.carry
                &&& s.flags@[2].0@ == seq!['Z'] && s.flags@[2].1 == self@.registers.status.zero
                &&& s.flags@[3].0@ == seq!['I'] && s.flags@[3].1 == self@.registers.status.irq_disable
                &&& s.flags@[4].0@ == seq!['D'] && s.flags@[4].1 == self@.registers.status.decimal_mode
                &&& s.flags@[5].0@ == seq!['V'] && s.flags@[5].1 == self@.registers.status.overflow
                &&& s.flags@[6].0@ == seq!['N'] && s.flags@[6].1 == self@.registers.status.negative
                &&& s.pc.name@ == seq!['P', 'C'] && s.pc.value == self@.registers.pc && s.pc.size
                    == RegisterSize::Size16
                &&& s.execution_state == self@.execution_state
            },
    {
        let regs = self.state.registers;
        let mut registers: Vec<Register> = Vec::new();
        registers.push(Register { name: "A".to_owned(), value: regs.accumulator as usize, size: RegisterSize::Size8 });
        registers.push(Register { name: "IDX_X".to_owned(), value: regs.index_x as usize, size: RegisterSize::Size8 });
        registers.push(Register { name: "IDX_Y".to_owned(), value: regs.index_y as usize, size: RegisterSize::Size8 });
        registers.push(Register { name: "SP".to_owned(), value: regs.sp as usize, size: RegisterSize::Size8 });
        let mut flags: Vec<(String, bool)> = Vec::new();
        flags.push(("B".to_owned(), regs.status.brk_command));
        flags.push(("C".to_owned(), regs.status.carry));
        flags.push(("Z".to_owned(), regs.status.zero));
        flags.push(("I".to_owned(), regs.status.irq_disable));
        flags.push(("D".to_owned(), regs.status.decimal_mode));
        flags.push(("V".to_owned(), regs.status.overflow));
        flags.push(("N".to_owned(), regs.status.negative));
        proof {
            reveal_strlit("A");
            reveal_strlit("IDX_X");
            reveal_strlit("IDX_Y");
            reveal_strlit("SP");
            reveal_strlit("B");
            reveal_strlit("C");
            reveal_strlit("Z");
            reveal_strlit("I");
            reveal_strlit("D");
            reveal_strlit("V");
            reveal_strlit("N");
            reveal_strlit("PC");
        }
        Ok(State {
            registers,
            flags,
            pc: Register { name: "PC".to_owned(), value: regs.pc as usize, size: RegisterSize::Size16 },
            execution_state: self.state.execution_state,
        })
    }
}

} // verus!
