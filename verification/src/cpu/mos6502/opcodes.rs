use vstd::prelude::*;

verus! {
/// How an instruction finds its operand.
#[derive(Debug, PartialEq, Eq, Clone, Copy, Structural)]
pub enum AddressingMode {
    Immediate,
    Absolute,
    ZeroPage,
    Accum,
    Implied,
    IndexX,
    IndexY,
    ZeroPageX,
    ZeroPageY,
    ZeroPageIndirect,
    ZeroPageRel,
    AbsX,
    AbsXIndirect,
    AbsY,
    Relative,
    Indirect,
    Nop2,
    Nop3,
}
/// The operation an opcode performs.
#[derive(Debug, PartialEq, Eq, Clone, Copy, Structural)]
pub enum Instruction {
    Adc,
    And,
    Asl,
    Bcc,
    Bcs,
    Beq,
    Bit,
    Bmi,
    Bne,
    Bpl,
    Bra,
    Brk,
    Bbr0,
    Bbr1,
    Bbr2,
    Bbr3,
    Bbr4,
    Bbr5,
    Bbr6,
    Bbr7,
    Bbs0,
    Bbs1,
    Bbs2,
    Bbs3,
    Bbs4,
    Bbs5,
    Bbs6,
    Bbs7,
    Bvc,
    Bvs,
    Clc,
    Cld,
    Cli,
    Clv,
    Cmp,
    Cpx,
    Cpy,
    Dec,
    Dex,
    Dey,
    Eor,
    Inc,
    Inx,
    Iny,
    Jmp,
    Jsr,
    Lda,
    Ldx,
    Ldy,
    Lsr,
    Nop,
    NopC2,
    Nop03,
    Nop13,
    Nop23,
    Nop33,
    Nop43,
    Nop53,
    Nop63,
    Nop73,
    Nop83,
    Nop93,
    NopA3,
    NopB3,
    NopC3,
    NopD3,
    NopE3,
    NopF3,
    Nop0B,
    Nop1B,
    Nop2B,
    Nop3B,
    Nop4B,
    Nop5B,
    Nop6B,
    Nop7B,
    Nop8B,
    Nop9B,
    NopAB,
    NopBB,
    NopEB,
    NopFB,
    Nop02,
    Nop22,
    Nop42,
    Nop62,
    Nop82,
    Nope2,
    Nop44,
    Nop54,
    NopD4,
    Nopf4,
    NopDc,
    NopFc,
    Nop5c,
    Ora,
    Pha,
    Php,
    Phx,
    Phy,
    Plx,
    Ply,
    Pla,
    Plp,
    Rol,
    Ror,
    Rmb0,
    Rmb1,
    Rmb2,
    Rmb3,
    Rmb4,
    Rmb5,
    Rmb6,
    Rmb7,
    Smb0,
    Smb1,
    Smb2,
    Smb3,
    Smb4,
    Smb5,
    Smb6,
    Smb7,
    Stp,
    Rti,
    Rts,
    Sbc,
    Sec,
    Sed,
    Sei,
    Sta,
    Stx,
    Sty,
    Stz,
    Tay,
    Tax,
    Trb,
    Tsb,
    Tsx,
    Txa,
    Txs,
    Tya,
    Wai,
}
/// What an opcode byte stands for.
#[derive(Debug, Clone, Copy)]
pub struct Opcode {
    pub name: &'static str,
    pub instruction: Instruction,
    pub value: u8,
    pub mode: AddressingMode,
    pub instruction_bytes: usize,
    pub cycles: usize,
}

/// The number of operand bytes that follow an opcode in the given addressing mode.
pub open spec fn operand_length(mode: AddressingMode) -> usize {
    match mode {
        AddressingMode::Immediate => 1,
        AddressingMode::Absolute => 2,
        AddressingMode::ZeroPage => 1,
        AddressingMode::Accum => 0,
        AddressingMode::Implied => 0,
        AddressingMode::IndexX => 1,
        AddressingMode::IndexY => 1,
        AddressingMode::ZeroPageX => 1,
        AddressingMode::ZeroPageY => 1,
        AddressingMode::ZeroPageIndirect => 1,
        AddressingMode::ZeroPageRel => 2,
        AddressingMode::AbsX => 2,
        AddressingMode::AbsXIndirect => 2,
        AddressingMode::AbsY => 2,
        AddressingMode::Relative => 1,
        AddressingMode::Indirect => 2,
        AddressingMode::Nop2 => 1,
        AddressingMode::Nop3 => 2,
    }
}

/// The opcode table of the 6502 and the 65C02.
pub open spec fn opcode_table(instruction: u8) -> Opcode {
    match instruction {
        0x00u8 => Opcode {
            name: "brk",
            instruction: Instruction::Brk,
            value: 0x00,
            mode: AddressingMode::Implied,
            instruction_bytes: 1,
            cycles: 7,
        },
        0x01u8 => Opcode {
            name: "ora",
            instruction: Instruction::Ora,
            value: 0x01,
            mode: AddressingMode::IndexX,
            instruction_bytes: 2,
            cycles: 6,
        },
        0x02u8 => Opcode {
            name: "nop02",
            instruction: Instruction::Nop02,
            value: 0x02,
            mode: AddressingMode::Nop2,
            instruction_bytes: 2,
            cycles: 2,
        },
        0x03u8 => Opcode {
            name: "nop03",
            instruction: Instruction::Nop03,
            value: 0x03,
            mode: AddressingMode::Implied,
            instruction_bytes: 1,
            cycles: 1,
        },
        0x04u8 => Opcode {
            name: "tsb",
            instruction: Instruction::Tsb,
            value: 0x04,
            mode: AddressingMode::ZeroPage,
            instruction_bytes: 2,
            cycles: 5,
        },
        0x05u8 => Opcode {
            name: "ora",
            instruction: Instruction::Ora,
            value: 0x05,
            mode: AddressingMode::ZeroPage,
            instruction_bytes: 2,
            cycles: 3,
        },
        0x06u8 => Opcode {
            name: "asl",
            instruction: Instruction::Asl,
            value: 0x06,
            mode: AddressingMode::ZeroPage,
            instruction_bytes: 2,
            cycles: 5,
        },
        0x07u8 => Opcode {
            name: "rmb0",
            instruction: Instruction::Rmb0,
            value: 0x07,
            mode: AddressingMode::ZeroPage,
            instruction_bytes: 2,
            cycles: 5,
        },
        0x08u8 => Opcode {
            name: "php",
            instruction: Instruction::Php,
            value: 0x08,
            mode: AddressingMode::Implied,
            instruction_bytes: 1,
            cycles: 3,
        },
        0x09u8 => Opcode {
            name: "ora",
            instruction: Instruction::Ora,
            value: 0x09,
            mode: AddressingMode::Immediate,
            instruction_bytes: 2,
            cycles: 2,
        },
        0x0au8 => Opcode {
            name: "asl",
            instruction: Instruction::Asl,
            value: 0x0a,
            mode: AddressingMode::Accum,
            instruction_bytes: 1,
            cycles: 2,
        },
        0x0bu8 => Opcode {
            name: "nop0b",
            instruction: Instruction::Nop0B,
            value: 0x0b,
            mode: AddressingMode::Implied,
            instruction_bytes: 1,
            cycles: 1,
        },
        0x0cu8 => Opcode {
            name: "tsb",
            instruction: Instruction::Tsb,
            value: 0x0c,
            mode: AddressingMode::Absolute,
            instruction_bytes: 3,
            cycles: 6,
        },
        0x0du8 => Opcode {
            name: "ora",
            instruction: Instruction::Ora,
            value: 0x0d,
            mode: AddressingMode::Absolute,
            instruction_bytes: 3,
            cycles: 4,
        },
        0x0eu8 => Opcode {
            name: "asl",
            instruction: Instruction::Asl,
            value: 0x0e,
            mode: AddressingMode::Absolute,
            instruction_bytes: 3,
            cycles: 6,
        },
        0x0fu8 => Opcode {
            name: "bbr0",
            instruction: Instruction::Bbr0,
            value: 0x0f,
            mode: AddressingMode::ZeroPageRel,
            instruction_bytes: 3,
            cycles: 5,
        },
        0x10u8 => Opcode {
            name: "bpl",
            instruction: Instruction::Bpl,
            value: 0x10,
            mode: AddressingMode::Relative,
            instruction_bytes: 2,
            cycles: 2,
        },
        0x11u8 => Opcode {
            name: "ora",
            instruction: Instruction::Ora,
            value: 0x11,
            mode: AddressingMode::IndexY,
            instruction_bytes: 2,
            cycles: 5,
        },
        0x12u8 => Opcode {
            name: "ora",
            instruction: Instruction::Ora,
            value: 0x12,
            mode: AddressingMode::ZeroPageIndirect,
            instruction_bytes: 2,
            cycles: 5,
        },
        0x13u8 => Opcode {
            name: "nop13",
            instruction: Instruction::Nop13,
            value: 0x13,
            mode: AddressingMode::Implied,
            instruction_bytes: 1,
            cycles: 1,
        },
        0x14u8 => Opcode {
            name: "trb",
            instruction: Instruction::Trb,
            value: 0x14,
            mode: AddressingMode::ZeroPage,
            instruction_bytes: 2,
            cycles: 5,
        },
        0x15u8 => Opcode {
            name: "ora",
            instruction: Instruction::Ora,
            value: 0x15,
            mode: AddressingMode::ZeroPageX,
            instruction_bytes: 2,
            cycles: 4,
        },
        0x16u8 => Opcode {
            name: "asl",
            instruction: Instruction::Asl,
            value: 0x16,
            mode: AddressingMode::ZeroPageX,
            instruction_bytes: 2,
            cycles: 6,
        },
        0x17u8 => Opcode {
            name: "rmb1",
            instruction: Instruction::Rmb1,
            value: 0x17,
            mode: AddressingMode::ZeroPage,
            instruction_bytes: 2,
            cycles: 5,
        },
        0x18u8 => Opcode {
            name: "clc",
            instruction: Instruction::Clc,
            value: 0x18,
            mode: AddressingMode::Implied,
            instruction_bytes: 1,
            cycles: 2,
        },
        0x19u8 => Opcode {
            name: "ora",
            instruction: Instruction::Ora,
            value: 0x19,
            mode: AddressingMode::AbsY,
            instruction_bytes: 3,
            cycles: 4,
        },
        0x1au8 => Opcode {
            name: "inc",
            instruction: Instruction::Inc,
            value: 0x1a,
            mode: AddressingMode::Accum,
            instruction_bytes: 1,
            cycles: 2,
        },
        0x1bu8 => Opcode {
            name: "nop1b",
            instruction: Instruction::Nop1B,
            value: 0x1b,
            mode: AddressingMode::Implied,
            instruction_bytes: 1,
            cycles: 1,
        },
        0x1cu8 => Opcode {
            name: "trb",
            instruction: Instruction::Trb,
            value: 0x1c,
            mode: AddressingMode::Absolute,
            instruction_bytes: 3,
            cycles: 6,
        },
        0x1du8 => Opcode {
            name: "ora",
            instruction: Instruction::Ora,
            value: 0x1d,
            mode: AddressingMode::AbsX,
            instruction_bytes: 3,
            cycles: 4,
        },
        0x1eu8 => Opcode {
            name: "asl",
            instruction: Instruction::Asl,
            value: 0x1e,
            mode: AddressingMode::AbsX,
            instruction_bytes: 3,
            cycles: 7,
        },
        0x1fu8 => Opcode {
            name: "bbr1",
            instruction: Instruction::Bbr1,
            value: 0x1f,
            mode: AddressingMode::ZeroPageRel,
            instruction_bytes: 3,
            cycles: 5,
        },
        0x20u8 => Opcode {
            name: "jsr",
            instruction: Instruction::Jsr,
            value: 0x20,
            mode: AddressingMode::Absolute,
            instruction_bytes: 3,
            cycles: 6,
        },
        0x21u8 => Opcode {
            name: "and",
            instruction: Instruction::And,
            value: 0x21,
            mode: AddressingMode::IndexX,
            instruction_bytes: 2,
            cycles: 6,
        },
        0x22u8 => Opcode {
            name: "nop22",
            instruction: Instruction::Nop22,
            value: 0x22,
            mode: AddressingMode::Nop2,
            instruction_bytes: 2,
            cycles: 2,
        },
        0x23u8 => Opcode {
            name: "nop23",
            instruction: Instruction::Nop23,
            value: 0x23,
            mode: AddressingMode::Implied,
            instruction_bytes: 1,
            cycles: 1,
        },
        0x24u8 => Opcode {
            name: "bit",
            instruction: Instruction::Bit,
            value: 0x24,
            mode: AddressingMode::ZeroPage,
            instruction_bytes: 2,
            cycles: 3,
        },
        0x25u8 => Opcode {
            name: "and",
            instruction: Instruction::And,
            value: 0x25,
            mode: AddressingMode::ZeroPage,
            instruction_bytes: 2,
            cycles: 3,
        },
        0x26u8 => Opcode {
            name: "rol",
            instruction: Instruction::Rol,
            value: 0x26,
            mode: AddressingMode::ZeroPage,
            instruction_bytes: 2,
            cycles: 5,
        },
        0x27u8 => Opcode {
            name: "rmb2",
            instruction: Instruction::Rmb2,
            value: 0x27,
            mode: AddressingMode::ZeroPage,
            instruction_bytes: 2,
            cycles: 5,
        },
        0x28u8 => Opcode {
            name: "plp",
            instruction: Instruction::Plp,
            value: 0x28,
            mode: AddressingMode::Implied,
            instruction_bytes: 1,
            cycles: 4,
        },
        0x29u8 => Opcode {
            name: "and",
            instruction: Instruction::And,
            value: 0x29,
            mode: AddressingMode::Immediate,
            instruction_bytes: 2,
            cycles: 2,
        },
        0x2au8 => Opcode {
            name: "rol",
            instruction: Instruction::Rol,
            value: 0x2a,
            mode: AddressingMode::Accum,
            instruction_bytes: 1,
            cycles: 2,
        },
        0x2bu8 => Opcode {
            name: "nop2b",
            instruction: Instruction::Nop2B,
            value: 0x2b,
            mode: AddressingMode::Implied,
            instruction_bytes: 1,
            cycles: 1,
        },
        0x2cu8 => Opcode {
            name: "bit",
            instruction: Instruction::Bit,
            value: 0x2c,
            mode: AddressingMode::Absolute,
            instruction_bytes: 3,
            cycles: 4,
        },
        0x2du8 => Opcode {
            name: "and",
            instruction: Instruction::And,
            value: 0x2d,
            mode: AddressingMode::Absolute,
            instruction_bytes: 3,
            cycles: 4,
        },
        0x2eu8 => Opcode {
            name: "rol",
            instruction: Instruction::Rol,
            value: 0x2e,
            mode: AddressingMode::Absolute,
            instruction_bytes: 3,
            cycles: 6,
        },
        0x2fu8 => Opcode {
            name: "bbr2",
            instruction: Instruction::Bbr2,
            value: 0x2f,
            mode: AddressingMode::ZeroPageRel,
            instruction_bytes: 3,
            cycles: 5,
        },
        0x30u8 => Opcode {
            name: "bmi",
            instruction: Instruction::Bmi,
            value: 0x30,
            mode: AddressingMode::Relative,
            instruction_bytes: 2,
            cycles: 2,
        },
        0x31u8 => Opcode {
            name: "and",
            instruction: Instruction::And,
            value: 0x31,
            mode: AddressingMode::IndexY,
            instruction_bytes: 2,
            cycles: 5,
        },
        0x32u8 => Opcode {
            name: "and",
            instruction: Instruction::And,
            value: 0x32,
            mode: AddressingMode::ZeroPageIndirect,
            instruction_bytes: 2,
            cycles: 5,
        },
        0x33u8 => Opcode {
            name: "nop33",
            instruction: Instruction::Nop33,
            value: 0x33,
            mode: AddressingMode::Implied,
            instruction_bytes: 1,
            cycles: 1,
        },
        0x34u8 => Opcode {
            name: "bit",
            instruction: Instruction::Bit,
            value: 0x34,
            mode: AddressingMode::ZeroPageX,
            instruction_bytes: 2,
            cycles: 3,
        },
        0x35u8 => Opcode {
            name: "and",
            instruction: Instruction::And,
            value: 0x35,
            mode: AddressingMode::ZeroPageX,
            instruction_bytes: 2,
            cycles: 4,
        },
        0x36u8 => Opcode {
            name: "rol",
            instruction: Instruction::Rol,
            value: 0x36,
            mode: AddressingMode::ZeroPageX,
            instruction_bytes: 2,
            cycles: 6,
        },
        0x37u8 => Opcode {
            name: "rmb3",
            instruction: Instruction::Rmb3,
            value: 0x37,
            mode: AddressingMode::ZeroPage,
            instruction_bytes: 2,
            cycles: 5,
        },
        0x38u8 => Opcode {
            name: "sec",
            instruction: Instruction::Sec,
            value: 0x38,
            mode: AddressingMode::Implied,
            instruction_bytes: 1,
            cycles: 2,
        },
        0x39u8 => Opcode {
            name: "and",
            instruction: Instruction::And,
            value: 0x39,
            mode: AddressingMode::AbsY,
            instruction_bytes: 3,
            cycles: 4,
        },
        0x3au8 => Opcode {
            name: "dec",
            instruction: Instruction::Dec,
            value: 0x3a,
            mode: AddressingMode::Accum,
            instruction_bytes: 1,
            cycles: 2,
        },
        0x3bu8 => Opcode {
            name: "nop3b",
            instruction: Instruction::Nop3B,
            value: 0x3b,
            mode: AddressingMode::Implied,
            instruction_bytes: 1,
            cycles: 1,
        },
        0x3cu8 => Opcode {
            name: "bit",
            instruction: Instruction::Bit,
            value: 0x3c,
            mode: AddressingMode::AbsX,
            instruction_bytes: 3,
            cycles: 4,
        },
        0x3du8 => Opcode {
            name: "and",
            instruction: Instruction::And,
            value: 0x3d,
            mode: AddressingMode::AbsX,
            instruction_bytes: 3,
            cycles: 4,
        },
        0x3eu8 => Opcode {
            name: "rol",
            instruction: Instruction::Rol,
            value: 0x3e,
            mode: AddressingMode::AbsX,
            instruction_bytes: 3,
            cycles: 7,
        },
        0x3fu8 => Opcode {
            name: "bbr3",
            instruction: Instruction::Bbr3,
            value: 0x3f,
            mode: AddressingMode::ZeroPageRel,
            instruction_bytes: 3,
            cycles: 5,
        },
        0x40u8 => Opcode {
            name: "rti",
            instruction: Instruction::Rti,
            value: 0x40,
            mode: AddressingMode::Implied,
            instruction_bytes: 1,
            cycles: 6,
        },
        0x41u8 => Opcode {
            name: "eor",
            instruction: Instruction::Eor,
            value: 0x41,
            mode: AddressingMode::IndexX,
            instruction_bytes: 2,
            cycles: 6,
        },
        0x42u8 => Opcode {
            name: "nop42",
            instruction: Instruction::Nop42,
            value: 0x42,
            mode: AddressingMode::Nop2,
            instruction_bytes: 2,
            cycles: 2,
        },
        0x43u8 => Opcode {
            name: "nop43",
            instruction: Instruction::Nop43,
            value: 0x43,
            mode: AddressingMode::Implied,
            instruction_bytes: 1,
            cycles: 1,
        },
        0x44u8 => Opcode {
            name: "nop44",
            instruction: Instruction::Nop44,
            value: 0x44,
            mode: AddressingMode::ZeroPage,
            instruction_bytes: 2,
            cycles: 3,
        },
        0x45u8 => Opcode {
            name: "eor",
            instruction: Instruction::Eor,
            value: 0x45,
            mode: AddressingMode::ZeroPage,
            instruction_bytes: 2,
            cycles: 3,
        },
        0x46u8 => Opcode {
            name: "lsr",
            instruction: Instruction::Lsr,
            value: 0x46,
            mode: AddressingMode::ZeroPage,
            instruction_bytes: 2,
            cycles: 5,
        },
        0x47u8 => Opcode {
            name: "rmb4",
            instruction: Instruction::Rmb4,
            value: 0x47,
            mode: AddressingMode::ZeroPage,
            instruction_bytes: 2,
            cycles: 5,
        },
        0x48u8 => Opcode {
            name: "pha",
            instruction: Instruction::Pha,
            value: 0x48,
            mode: AddressingMode::Implied,
            instruction_bytes: 1,
            cycles: 3,
        },
        0x49u8 => Opcode {
            name: "eor",
            instruction: Instruction::Eor,
            value: 0x49,
            mode: AddressingMode::Immediate,
            instruction_bytes: 2,
            cycles: 2,
        },
        0x4au8 => Opcode {
            name: "lsr",
            instruction: Instruction::Lsr,
            value: 0x4a,
            mode: AddressingMode::Accum,
            instruction_bytes: 1,
            cycles: 2,
        },
        0x4bu8 => Opcode {
            name: "nop4b",
            instruction: Instruction::Nop4B,
            value: 0x4b,
            mode: AddressingMode::Implied,
            instruction_bytes: 1,
            cycles: 1,
        },
        0x4cu8 => Opcode {
            name: "jmp",
            instruction: Instruction::Jmp,
            value: 0x4c,
            mode: AddressingMode::Absolute,
            instruction_bytes: 3,
            cycles: 3,
        },
        0x4du8 => Opcode {
            name: "eor",
            instruction: Instruction::Eor,
            value: 0x4d,
            mode: AddressingMode::Absolute,
            instruction_bytes: 3,
            cycles: 4,
        },
        0x4eu8 => Opcode {
            name: "lsr",
            instruction: Instruction::Lsr,
            value: 0x4e,
            mode: AddressingMode::Absolute,
            instruction_bytes: 3,
            cycles: 6,
        },
        0x4fu8 => Opcode {
            name: "bbr4",
            instruction: Instruction::Bbr4,
            value: 0x4f,
            mode: AddressingMode::ZeroPageRel,
            instruction_bytes: 3,
            cycles: 5,
        },
        0x50u8 => Opcode {
            name: "bvc",
            instruction: Instruction::Bvc,
            value: 0x50,
            mode: AddressingMode::Relative,
            instruction_bytes: 2,
            cycles: 2,
        },
        0x51u8 => Opcode {
            name: "eor",
            instruction: Instruction::Eor,
            value: 0x51,
            mode: AddressingMode::IndexY,
            instruction_bytes: 2,
            cycles: 5,
        },
        0x52u8 => Opcode {
            name: "eor",
            instruction: Instruction::Eor,
            value: 0x52,
            mode: AddressingMode::ZeroPageIndirect,
            instruction_bytes: 2,
            cycles: 5,
        },
        0x53u8 => Opcode {
            name: "nop53",
            instruction: Instruction::Nop53,
            value: 0x53,
            mode: AddressingMode::Implied,
            instruction_bytes: 1,
            cycles: 1,
        },
        0x54u8 => Opcode {
            name: "nop54",
            instruction: Instruction::Nop54,
            value: 0x54,
            mode: AddressingMode::ZeroPageX,
            instruction_bytes: 2,
            cycles: 4,
        },
        0x55u8 => Opcode {
            name: "eor",
            instruction: Instruction::Eor,
            value: 0x55,
            mode: AddressingMode::ZeroPageX,
            instruction_bytes: 2,
            cycles: 4,
        },
        0x56u8 => Opcode {
            name: "lsr",
            instruction: Instruction::Lsr,
            value: 0x56,
            mode: AddressingMode::ZeroPageX,
            instruction_bytes: 2,
            cycles: 6,
        },
        0x57u8 => Opcode {
            name: "rmb5",
            instruction: Instruction::Rmb5,
            value: 0x57,
            mode: AddressingMode::ZeroPage,
            instruction_bytes: 2,
            cycles: 5,
        },
        0x58u8 => Opcode {
            name: "cli",
            instruction: Instruction::Cli,
            value: 0x58,
            mode: AddressingMode::Implied,
            instruction_bytes: 1,
            cycles: 2,
        },
        0x59u8 => Opcode {
            name: "eor",
            instruction: Instruction::Eor,
            value: 0x59,
            mode: AddressingMode::AbsY,
            instruction_bytes: 3,
            cycles: 4,
        },
        0x5au8 => Opcode {
            name: "phy",
            instruction: Instruction::Phy,
            value: 0x5a,
            mode: AddressingMode::Implied,
            instruction_bytes: 1,
            cycles: 3,
        },
        0x5bu8 => Opcode {
            name: "nop5b",
            instruction: Instruction::Nop5B,
            value: 0x5b,
            mode: AddressingMode::Implied,
            instruction_bytes: 1,
            cycles: 1,
        },
        0x5cu8 => Opcode {
            name: "nop5c",
            instruction: Instruction::Nop5c,
            value: 0x5c,
            mode: AddressingMode::Absolute,
            instruction_bytes: 3,
            cycles: 8,
        },
        0x5du8 => Opcode {
            name: "eor",
            instruction: Instruction::Eor,
            value: 0x5d,
            mode: AddressingMode::AbsX,
            instruction_bytes: 3,
            cycles: 4,
        },
        0x5eu8 => Opcode {
            name: "lsr",
            instruction: Instruction::Lsr,
            value: 0x5e,
            mode: AddressingMode::AbsX,
            instruction_bytes: 3,
            cycles: 7,
        },
        0x5fu8 => Opcode {
            name: "bbr5",
            instruction: Instruction::Bbr5,
            value: 0x5f,
            mode: AddressingMode::ZeroPageRel,
            instruction_bytes: 3,
            cycles: 5,
        },
        0x60u8 => Opcode {
            name: "rts",
            instruction: Instruction::Rts,
            value: 0x60,
            mode: AddressingMode::Implied,
            instruction_bytes: 1,
            cycles: 6,
        },
        0x61u8 => Opcode {
            name: "adc",
            instruction: Instruction::Adc,
            value: 0x61,
            mode: AddressingMode::IndexX,
            instruction_bytes: 2,
            cycles: 6,
        },
        0x62u8 => Opcode {
            name: "nop62",
            instruction: Instruction::Nop62,
            value: 0x62,
            mode: AddressingMode::Nop2,
            instruction_bytes: 2,
            cycles: 2,
        },
        0x63u8 => Opcode {
            name: "nop63",
            instruction: Instruction::Nop63,
            value: 0x63,
            mode: AddressingMode::Implied,
            instruction_bytes: 1,
            cycles: 1,
        },
        0x64u8 => Opcode {
            name: "stz",
            instruction: Instruction::Stz,
            value: 0x64,
            mode: AddressingMode::ZeroPage,
            instruction_bytes: 2,
            cycles: 3,
        },
        0x65u8 => Opcode {
            name: "adc",
            instruction: Instruction::Adc,
            value: 0x65,
            mode: AddressingMode::ZeroPage,
            instruction_bytes: 2,
            cycles: 3,
        },
        0x66u8 => Opcode {
            name: "ror",
            instruction: Instruction::Ror,
            value: 0x66,
            mode: AddressingMode::ZeroPage,
            instruction_bytes: 2,
            cycles: 5,
        },
        0x67u8 => Opcode {
            name: "rmb6",
            instruction: Instruction::Rmb6,
            value: 0x67,
            mode: AddressingMode::ZeroPage,
            instruction_bytes: 2,
            cycles: 5,
        },
        0x68u8 => Opcode {
            name: "pla",
            instruction: Instruction::Pla,
            value: 0x68,
            mode: AddressingMode::Implied,
            instruction_bytes: 1,
            cycles: 4,
        },
        0x69u8 => Opcode {
            name: "adc",
            instruction: Instruction::Adc,
            value: 0x69,
            mode: AddressingMode::Immediate,
            instruction_bytes: 2,
            cycles: 2,
        },
        0x6au8 => Opcode {
            name: "ror",
            instruction: Instruction::Ror,
            value: 0x6a,
            mode: AddressingMode::Accum,
            instruction_bytes: 1,
            cycles: 2,
        },
        0x6bu8 => Opcode {
            name: "nop6b",
            instruction: Instruction::Nop6B,
            value: 0x6b,
            mode: AddressingMode::Implied,
            instruction_bytes: 1,
            cycles: 1,
        },
        0x6cu8 => Opcode {
            name: "jmp",
            instruction: Instruction::Jmp,
            value: 0x6c,
            mode: AddressingMode::Indirect,
            instruction_bytes: 3,
            cycles: 5,
        },
        0x6du8 => Opcode {
            name: "adc",
            instruction: Instruction::Adc,
            value: 0x6d,
            mode: AddressingMode::Absolute,
            instruction_bytes: 3,
            cycles: 4,
        },
        0x6eu8 => Opcode {
            name: "ror",
            instruction: Instruction::Ror,
            value: 0x6e,
            mode: AddressingMode::Absolute,
            instruction_bytes: 3,
            cycles: 6,
        },
        0x6fu8 => Opcode {
            name: "bbr6",
            instruction: Instruction::Bbr6,
            value: 0x6f,
            mode: AddressingMode::ZeroPageRel,
            instruction_bytes: 3,
            cycles: 5,
        },
        0x70u8 => Opcode {
            name: "bvs",
            instruction: Instruction::Bvs,
            value: 0x70,
            mode: AddressingMode::Relative,
            instruction_bytes: 2,
            cycles: 2,
        },
        0x71u8 => Opcode {
            name: "adc",
            instruction: Instruction::Adc,
            value: 0x71,
            mode: AddressingMode::IndexY,
            instruction_bytes: 2,
            cycles: 5,
        },
        0x72u8 => Opcode {
            name: "adc",
            instruction: Instruction::Adc,
            value: 0x72,
            mode: AddressingMode::ZeroPageIndirect,
            instruction_bytes: 2,
            cycles: 5,
        },
        0x73u8 => Opcode {
            name: "nop73",
            instruction: Instruction::Nop73,
            value: 0x73,
            mode: AddressingMode::Implied,
            instruction_bytes: 1,
            cycles: 1,
        },
        0x74u8 => Opcode {
            name: "stz",
            instruction: Instruction::Stz,
            value: 0x74,
            mode: AddressingMode::ZeroPageX,
            instruction_bytes: 2,
            cycles: 4,
        },
        0x75u8 => Opcode {
            name: "adc",
            instruction: Instruction::Adc,
            value: 0x75,
            mode: AddressingMode::ZeroPageX,
            instruction_bytes: 2,
            cycles: 4,
        },
        0x76u8 => Opcode {
            name: "ror",
            instruction: Instruction::Ror,
            value: 0x76,
            mode: AddressingMode::ZeroPageX,
            instruction_bytes: 2,
            cycles: 6,
        },
        0x77u8 => Opcode {
            name: "rmb7",
            instruction: Instruction::Rmb7,
            value: 0x77,
            mode: AddressingMode::ZeroPage,
            instruction_bytes: 2,
            cycles: 5,
        },
        0x78u8 => Opcode {
            name: "sei",
            instruction: Instruction::Sei,
            value: 0x78,
            mode: AddressingMode::Implied,
            instruction_bytes: 1,
            cycles: 2,
        },
        0x79u8 => Opcode {
            name: "adc",
            instruction: Instruction::Adc,
            value: 0x79,
            mode: AddressingMode::AbsY,
            instruction_bytes: 3,
            cycles: 4,
        },
        0x7au8 => Opcode {
            name: "ply",
            instruction: Instruction::Ply,
            value: 0x7a,
            mode: AddressingMode::Implied,
            instruction_bytes: 1,
            cycles: 4,
        },
        0x7bu8 => Opcode {
            name: "nop7b",
            instruction: Instruction::Nop7B,
            value: 0x7b,
            mode: AddressingMode::Implied,
            instruction_bytes: 1,
            cycles: 1,
        },
        0x7cu8 => Opcode {
            name: "jmp",
            instruction: Instruction::Jmp,
            value: 0x7c,
            mode: AddressingMode::AbsXIndirect,
            instruction_bytes: 3,
            cycles: 6,
        },
        0x7du8 => Opcode {
            name: "adc",
            instruction: Instruction::Adc,
            value: 0x7d,
            mode: AddressingMode::AbsX,
            instruction_bytes: 3,
            cycles: 4,
        },
        0x7eu8 => Opcode {
            name: "ror",
            instruction: Instruction::Ror,
            value: 0x7e,
            mode: AddressingMode::AbsX,
            instruction_bytes: 3,
            cycles: 7,
        },
        0x7fu8 => Opcode {
            name: "bbr7",
            instruction: Instruction::Bbr7,
            value: 0x7f,
            mode: AddressingMode::ZeroPageRel,
            instruction_bytes: 3,
            cycles: 5,
        },
        0x80u8 => Opcode {
            name: "bra",
            instruction: Instruction::Bra,
            value: 0x80,
            mode: AddressingMode::Relative,
            instruction_bytes: 2,
            cycles: 3,
        },
        0x81u8 => Opcode {
            name: "sta",
            instruction: Instruction::Sta,
            value: 0x81,
            mode: AddressingMode::IndexX,
            instruction_bytes: 2,
            cycles: 6,
        },
        0x82u8 => Opcode {
            name: "nop82",
            instruction: Instruction::Nop82,
            value: 0x82,
            mode: AddressingMode::Nop2,
            instruction_bytes: 2,
            cycles: 2,
        },
        0x83u8 => Opcode {
            name: "nop83",
            instruction: Instruction::Nop83,
            value: 0x83,
            mode: AddressingMode::Implied,
            instruction_bytes: 1,
            cycles: 1,
        },
        0x84u8 => Opcode {
            name: "sty",
            instruction: Instruction::Sty,
            value: 0x84,
            mode: AddressingMode::ZeroPage,
            instruction_bytes: 2,
            cycles: 3,
        },
        0x85u8 => Opcode {
            name: "sta",
            instruction: Instruction::Sta,
            value: 0x85,
            mode: AddressingMode::ZeroPage,
            instruction_bytes: 2,
            cycles: 3,
        },
        0x86u8 => Opcode {
            name: "stx",
            instruction: Instruction::Stx,
            value: 0x86,
            mode: AddressingMode::ZeroPage,
            instruction_bytes: 2,
            cycles: 3,
        },
        0x87u8 => Opcode {
            name: "smb0",
            instruction: Instruction::Smb0,
            value: 0x87,
            mode: AddressingMode::ZeroPage,
            instruction_bytes: 2,
            cycles: 5,
        },
        0x88u8 => Opcode {
            name: "dey",
            instruction: Instruction::Dey,
            value: 0x88,
            mode: AddressingMode::Implied,
            instruction_bytes: 1,
            cycles: 2,
        },
        0x89u8 => Opcode {
            name: "bit",
            instruction: Instruction::Bit,
            value: 0x89,
            mode: AddressingMode::Immediate,
            instruction_bytes: 2,
            cycles: 2,
        },
        0x8au8 => Opcode {
            name: "txa",
            instruction: Instruction::Txa,
            value: 0x8a,
            mode: AddressingMode::Implied,
            instruction_bytes: 1,
            cycles: 2,
        },
        0x8bu8 => Opcode {
            name: "nop8b",
            instruction: Instruction::Nop8B,
            value: 0x8b,
            mode: AddressingMode::Implied,
            instruction_bytes: 1,
            cycles: 1,
        },
        0x8cu8 => Opcode {
            name: "sty",
            instruction: Instruction::Sty,
            value: 0x8c,
            mode: AddressingMode::Absolute,
            instruction_bytes: 3,
            cycles: 4,
        },
        0x8du8 => Opcode {
            name: "sta",
            instruction: Instruction::Sta,
            value: 0x8d,
            mode: AddressingMode::Absolute,
            instruction_bytes: 3,
            cycles: 4,
        },
        0x8eu8 => Opcode {
            name: "stx",
            instruction: Instruction::Stx,
            value: 0x8e,
            mode: AddressingMode::Absolute,
            instruction_bytes: 3,
            cycles: 4,
        },
        0x8fu8 => Opcode {
            name: "bbs0",
            instruction: Instruction::Bbs0,
            value: 0x8f,
            mode: AddressingMode::ZeroPageRel,
            instruction_bytes: 3,
            cycles: 5,
        },
        0x90u8 => Opcode {
            name: "bcc",
            instruction: Instruction::Bcc,
            value: 0x90,
            mode: AddressingMode::Relative,
            instruction_bytes: 2,
            cycles: 2,
        },
        0x91u8 => Opcode {
            name: "sta",
            instruction: Instruction::Sta,
            value: 0x91,
            mode: AddressingMode::IndexY,
            instruction_bytes: 2,
            cycles: 6,
        },
        0x92u8 => Opcode {
            name: "sta",
            instruction: Instruction::Sta,
            value: 0x92,
            mode: AddressingMode::ZeroPageIndirect,
            instruction_bytes: 2,
            cycles: 5,
        },
        0x93u8 => Opcode {
            name: "nop93",
            instruction: Instruction::Nop93,
            value: 0x93,
            mode: AddressingMode::Implied,
            instruction_bytes: 1,
            cycles: 1,
        },
        0x94u8 => Opcode {
            name: "sty",
            instruction: Instruction::Sty,
            value: 0x94,
            mode: AddressingMode::ZeroPageX,
            instruction_bytes: 2,
            cycles: 4,
        },
        0x95u8 => Opcode {
            name: "sta",
            instruction: Instruction::Sta,
            value: 0x95,
            mode: AddressingMode::ZeroPageX,
            instruction_bytes: 2,
            cycles: 4,
        },
        0x96u8 => Opcode {
            name: "stx",
            instruction: Instruction::Stx,
            value: 0x96,
            mode: AddressingMode::ZeroPageY,
            instruction_bytes: 2,
            cycles: 4,
        },
        0x97u8 => Opcode {
            name: "smb1",
            instruction: Instruction::Smb1,
            value: 0x97,
            mode: AddressingMode::ZeroPage,
            instruction_bytes: 2,
            cycles: 5,
        },
        0x98u8 => Opcode {
            name: "tya",
            instruction: Instruction::Tya,
            value: 0x98,
            mode: AddressingMode::Implied,
            instruction_bytes: 1,
            cycles: 2,
        },
        0x99u8 => Opcode {
            name: "sta",
            instruction: Instruction::Sta,
            value: 0x99,
            mode: AddressingMode::AbsY,
            instruction_bytes: 3,
            cycles: 5,
        },
        0x9au8 => Opcode {
            name: "txs",
            instruction: Instruction::Txs,
            value: 0x9a,
            mode: AddressingMode::Implied,
            instruction_bytes: 1,
            cycles: 2,
        },
        0x9bu8 => Opcode {
            name: "nop9b",
            instruction: Instruction::Nop9B,
            value: 0x9b,
            mode: AddressingMode::Implied,
            instruction_bytes: 1,
            cycles: 1,
        },
        0x9cu8 => Opcode {
            name: "stz",
            instruction: Instruction::Stz,
            value: 0x9c,
            mode: AddressingMode::Absolute,
            instruction_bytes: 3,
            cycles: 4,
        },
        0x9du8 => Opcode {
            name: "sta",
            instruction: Instruction::Sta,
            value: 0x9d,
            mode: AddressingMode::AbsX,
            instruction_bytes: 3,
            cycles: 5,
        },
        0x9eu8 => Opcode {
            name: "stz",
            instruction: Instruction::Stz,
            value: 0x9e,
            mode: AddressingMode::AbsX,
            instruction_bytes: 3,
            cycles: 5,
        },
        0x9fu8 => Opcode {
            name: "bbs1",
            instruction: Instruction::Bbs1,
            value: 0x9f,
            mode: AddressingMode::ZeroPageRel,
            instruction_bytes: 3,
            cycles: 5,
        },
        0xa0u8 => Opcode {
            name: "ldy",
            instruction: Instruction::Ldy,
            value: 0xa0,
            mode: AddressingMode::Immediate,
            instruction_bytes: 2,
            cycles: 2,
        },
        0xa1u8 => Opcode {
            name: "lda",
            instruction: Instruction::Lda,
            value: 0xa1,
            mode: AddressingMode::IndexX,
            instruction_bytes: 2,
            cycles: 6,
        },
        0xa2u8 => Opcode {
            name: "ldx",
            instruction: Instruction::Ldx,
            value: 0xa2,
            mode: AddressingMode::Immediate,
            instruction_bytes: 2,
            cycles: 2,
        },
        0xa3u8 => Opcode {
            name: "nopa3",
            instruction: Instruction::NopA3,
            value: 0xa3,
            mode: AddressingMode::Implied,
            instruction_bytes: 1,
            cycles: 1,
        },
        0xa4u8 => Opcode {
            name: "ldy",
            instruction: Instruction::Ldy,
            value: 0xa4,
            mode: AddressingMode::ZeroPage,
            instruction_bytes: 2,
            cycles: 3,
        },
        0xa5u8 => Opcode {
            name: "lda",
            instruction: Instruction::Lda,
            value: 0xa5,
            mode: AddressingMode::ZeroPage,
            instruction_bytes: 2,
            cycles: 3,
        },
        0xa6u8 => Opcode {
            name: "ldx",
            instruction: Instruction::Ldx,
            value: 0xa6,
            mode: AddressingMode::ZeroPage,
            instruction_bytes: 2,
            cycles: 3,
        },
        0xa7u8 => Opcode {
            name: "smb2",
            instruction: Instruction::Smb2,
            value: 0xa7,
            mode: AddressingMode::ZeroPage,
            instruction_bytes: 2,
            cycles: 5,
        },
        0xa8u8 => Opcode {
            name: "tay",
            instruction: Instruction::Tay,
            value: 0xa8,
            mode: AddressingMode::Implied,
            instruction_bytes: 1,
            cycles: 2,
        },
        0xa9u8 => Opcode {
            name: "lda",
            instruction: Instruction::Lda,
            value: 0xa9,
            mode: AddressingMode::Immediate,
            instruction_bytes: 2,
            cycles: 2,
        },
        0xaau8 => Opcode {
            name: "tax",
            instruction: Instruction::Tax,
            value: 0xaa,
            mode: AddressingMode::Implied,
            instruction_bytes: 1,
            cycles: 2,
        },
        0xabu8 => Opcode {
            name: "nopab",
            instruction: Instruction::NopAB,
            value: 0xab,
            mode: AddressingMode::Implied,
            instruction_bytes: 1,
            cycles: 1,
        },
        0xacu8 => Opcode {
            name: "ldy",
            instruction: Instruction::Ldy,
            value: 0xac,
            mode: AddressingMode::Absolute,
            instruction_bytes: 3,
            cycles: 4,
        },
        0xadu8 => Opcode {
            name: "lda",
            instruction: Instruction::Lda,
            value: 0xad,
            mode: AddressingMode::Absolute,
            instruction_bytes: 3,
            cycles: 4,
        },
        0xaeu8 => Opcode {
            name: "ldx",
            instruction: Instruction::Ldx,
            value: 0xae,
            mode: AddressingMode::Absolute,
            instruction_bytes: 3,
            cycles: 4,
        },
        0xafu8 => Opcode {
            name: "bbs2",
            instruction: Instruction::Bbs2,
            value: 0xaf,
            mode: AddressingMode::ZeroPageRel,
            instruction_bytes: 3,
            cycles: 5,
        },
        0xb0u8 => Opcode {
            name: "bcs",
            instruction: Instruction::Bcs,
            value: 0xb0,
            mode: AddressingMode::Relative,
            instruction_bytes: 2,
            cycles: 2,
        },
        0xb1u8 => Opcode {
            name: "lda",
            instruction: Instruction::Lda,
            value: 0xb1,
            mode: AddressingMode::IndexY,
            instruction_bytes: 2,
            cycles: 5,
        },
        0xb2u8 => Opcode {
            name: "lda",
            instruction: Instruction::Lda,
            value: 0xb2,
            mode: AddressingMode::ZeroPageIndirect,
            instruction_bytes: 2,
            cycles: 5,
        },
        0xb3u8 => Opcode {
            name: "nopb3",
            instruction: Instruction::NopB3,
            value: 0xb3,
            mode: AddressingMode::Implied,
            instruction_bytes: 1,
            cycles: 1,
        },
        0xb4u8 => Opcode {
            name: "ldy",
            instruction: Instruction::Ldy,
            value: 0xb4,
            mode: AddressingMode::ZeroPageX,
            instruction_bytes: 2,
            cycles: 4,
        },
        0xb5u8 => Opcode {
            name: "lda",
            instruction: Instruction::Lda,
            value: 0xb5,
            mode: AddressingMode::ZeroPageX,
            instruction_bytes: 2,
            cycles: 4,
        },
        0xb6u8 => Opcode {
            name: "ldx",
            instruction: Instruction::Ldx,
            value: 0xb6,
            mode: AddressingMode::ZeroPageY,
            instruction_bytes: 2,
            cycles: 4,
        },
        0xb7u8 => Opcode {
            name: "smb3",
            instruction: Instruction::Smb3,
            value: 0xb7,
            mode: AddressingMode::ZeroPage,
            instruction_bytes: 2,
            cycles: 5,
        },
        0xb8u8 => Opcode {
            name: "clv",
            instruction: Instruction::Clv,
            value: 0xb8,
            mode: AddressingMode::Implied,
            instruction_bytes: 1,
            cycles: 2,
        },
        0xb9u8 => Opcode {
            name: "lda",
            instruction: Instruction::Lda,
            value: 0xb9,
            mode: AddressingMode::AbsY,
            instruction_bytes: 3,
            cycles: 4,
        },
        0xbau8 => Opcode {
            name: "tsx",
            instruction: Instruction::Tsx,
            value: 0xba,
            mode: AddressingMode::Implied,
            instruction_bytes: 1,
            cycles: 2,
        },
        0xbbu8 => Opcode {
            name: "nopbb",
            instruction: Instruction::NopBB,
            value: 0xbb,
            mode: AddressingMode::Implied,
            instruction_bytes: 1,
            cycles: 1,
        },
        0xbcu8 => Opcode {
            name: "ldy",
            instruction: Instruction::Ldy,
            value: 0xbc,
            mode: AddressingMode::AbsX,
            instruction_bytes: 3,
            cycles: 4,
        },
        0xbdu8 => Opcode {
            name: "lda",
            instruction: Instruction::Lda,
            value: 0xbd,
            mode: AddressingMode::AbsX,
            instruction_bytes: 3,
            cycles: 4,
        },
        0xbeu8 => Opcode {
            name: "ldx",
            instruction: Instruction::Ldx,
            value: 0xbe,
            mode: AddressingMode::AbsY,
            instruction_bytes: 3,
            cycles: 4,
        },
        0xbfu8 => Opcode {
            name: "bbs3",
            instruction: Instruction::Bbs3,
            value: 0xbf,
            mode: AddressingMode::ZeroPageRel,
            instruction_bytes: 3,
            cycles: 5,
        },
        0xc0u8 => Opcode {
            name: "cpy",
            instruction: Instruction::Cpy,
            value: 0xc0,
            mode: AddressingMode::Immediate,
            instruction_bytes: 2,
            cycles: 2,
        },
        0xc1u8 => Opcode {
            name: "cmp",
            instruction: Instruction::Cmp,
            value: 0xc1,
            mode: AddressingMode::IndexX,
            instruction_bytes: 2,
            cycles: 6,
        },
        0xc2u8 => Opcode {
            name: "nopc2",
            instruction: Instruction::NopC2,
            value: 0xc2,
            mode: AddressingMode::Nop2,
            instruction_bytes: 2,
            cycles: 2,
        },
        0xc3u8 => Opcode {
            name: "nopc3",
            instruction: Instruction::NopC3,
            value: 0xc3,
            mode: AddressingMode::Implied,
            instruction_bytes: 1,
            cycles: 1,
        },
        0xc4u8 => Opcode {
            name: "cpy",
            instruction: Instruction::Cpy,
            value: 0xc4,
            mode: AddressingMode::ZeroPage,
            instruction_bytes: 2,
            cycles: 3,
        },
        0xc5u8 => Opcode {
            name: "cmp",
            instruction: Instruction::Cmp,
            value: 0xc5,
            mode: AddressingMode::ZeroPage,
            instruction_bytes: 2,
            cycles: 3,
        },
        0xc6u8 => Opcode {
            name: "dec",
            instruction: Instruction::Dec,
            value: 0xc6,
            mode: AddressingMode::ZeroPage,
            instruction_bytes: 2,
            cycles: 5,
        },
        0xc7u8 => Opcode {
            name: "smb4",
            instruction: Instruction::Smb4,
            value: 0xc7,
            mode: AddressingMode::ZeroPage,
            instruction_bytes: 2,
            cycles: 5,
        },
        0xc8u8 => Opcode {
            name: "iny",
            instruction: Instruction::Iny,
            value: 0xc8,
            mode: AddressingMode::Implied,
            instruction_bytes: 1,
            cycles: 2,
        },
        0xc9u8 => Opcode {
            name: "cmp",
            instruction: Instruction::Cmp,
            value: 0xc9,
            mode: AddressingMode::Immediate,
            instruction_bytes: 2,
            cycles: 2,
        },
        0xcau8 => Opcode {
            name: "dex",
            instruction: Instruction::Dex,
            value: 0xca,
            mode: AddressingMode::Implied,
            instruction_bytes: 1,
            cycles: 2,
        },
        0xcbu8 => Opcode {
            name: "wai",
            instruction: Instruction::Wai,
            value: 0xcb,
            mode: AddressingMode::Implied,
            instruction_bytes: 1,
            cycles: 3,
        },
        0xccu8 => Opcode {
            name: "cpy",
            instruction: Instruction::Cpy,
            value: 0xcc,
            mode: AddressingMode::Absolute,
            instruction_bytes: 3,
            cycles: 4,
        },
        0xcdu8 => Opcode {
            name: "cmp",
            instruction: Instruction::Cmp,
            value: 0xcd,
            mode: AddressingMode::Absolute,
            instruction_bytes: 3,
            cycles: 4,
        },
        0xceu8 => Opcode {
            name: "dec",
            instruction: Instruction::Dec,
            value: 0xce,
            mode: AddressingMode::Absolute,
            instruction_bytes: 3,
            cycles: 6,
        },
        0xcfu8 => Opcode {
            name: "bbs4",
            instruction: Instruction::Bbs4,
            value: 0xcf,
            mode: AddressingMode::ZeroPageRel,
            instruction_bytes: 3,
            cycles: 5,
        },
        0xd0u8 => Opcode {
            name: "bne",
            instruction: Instruction::Bne,
            value: 0xd0,
            mode: AddressingMode::Relative,
            instruction_bytes: 2,
            cycles: 2,
        },
        0xd1u8 => Opcode {
            name: "cmp",
            instruction: Instruction::Cmp,
            value: 0xd1,
            mode: AddressingMode::IndexY,
            instruction_bytes: 2,
            cycles: 5,
        },
        0xd2u8 => Opcode {
            name: "cmp",
            instruction: Instruction::Cmp,
            value: 0xd2,
            mode: AddressingMode::ZeroPageIndirect,
            instruction_bytes: 2,
            cycles: 5,
        },
        0xd3u8 => Opcode {
            name: "nopd3",
            instruction: Instruction::NopD3,
            value: 0xd3,
            mode: AddressingMode::Implied,
            instruction_bytes: 1,
            cycles: 1,
        },
        0xd4u8 => Opcode {
            name: "nopd4",
            instruction: Instruction::NopD4,
            value: 0xd4,
            mode: AddressingMode::ZeroPageX,
            instruction_bytes: 2,
            cycles: 4,
        },
        0xd5u8 => Opcode {
            name: "cmp",
            instruction: Instruction::Cmp,
            value: 0xd5,
            mode: AddressingMode::ZeroPageX,
            instruction_bytes: 2,
            cycles: 4,
        },
        0xd6u8 => Opcode {
            name: "dec",
            instruction: Instruction::Dec,
            value: 0xd6,
            mode: AddressingMode::ZeroPageX,
            instruction_bytes: 2,
            cycles: 6,
        },
        0xd7u8 => Opcode {
            name: "smb5",
            instruction: Instruction::Smb5,
            value: 0xd7,
            mode: AddressingMode::ZeroPage,
            instruction_bytes: 2,
            cycles: 5,
        },
        0xd8u8 => Opcode {
            name: "cld",
            instruction: Instruction::Cld,
            value: 0xd8,
            mode: AddressingMode::Implied,
            instruction_bytes: 1,
            cycles: 2,
        },
        0xd9u8 => Opcode {
            name: "cmp",
            instruction: Instruction::Cmp,
            value: 0xd9,
            mode: AddressingMode::AbsY,
            instruction_bytes: 3,
            cycles: 4,
        },
        0xdau8 => Opcode {
            name: "phx",
            instruction: Instruction::Phx,
            value: 0xda,
            mode: AddressingMode::Implied,
            instruction_bytes: 1,
            cycles: 3,
        },
        0xdbu8 => Opcode {
            name: "stp",
            instruction: Instruction::Stp,
            value: 0xdb,
            mode: AddressingMode::Implied,
            instruction_bytes: 1,
            cycles: 3,
        },
        0xdcu8 => Opcode {
            name: "nopdc",
            instruction: Instruction::NopDc,
            value: 0xdc,
            mode: AddressingMode::Absolute,
            instruction_bytes: 3,
            cycles: 4,
        },
        0xddu8 => Opcode {
            name: "cmp",
            instruction: Instruction::Cmp,
            value: 0xdd,
            mode: AddressingMode::AbsX,
            instruction_bytes: 3,
            cycles: 4,
        },
        0xdeu8 => Opcode {
            name: "dec",
            instruction: Instruction::Dec,
            value: 0xde,
            mode: AddressingMode::AbsX,
            instruction_bytes: 3,
            cycles: 7,
        },
        0xdfu8 => Opcode {
            name: "bbs5",
            instruction: Instruction::Bbs5,
            value: 0xdf,
            mode: AddressingMode::ZeroPageRel,
            instruction_bytes: 3,
            cycles: 5,
        },
        0xe0u8 => Opcode {
            name: "cpx",
            instruction: Instruction::Cpx,
            value: 0xe0,
            mode: AddressingMode::Immediate,
            instruction_bytes: 2,
            cycles: 2,
        },
        0xe1u8 => Opcode {
            name: "sbc",
            instruction: Instruction::Sbc,
            value: 0xe1,
            mode: AddressingMode::IndexX,
            instruction_bytes: 2,
            cycles: 6,
        },
        0xe2u8 => Opcode {
            name: "nope2",
            instruction: Instruction::Nope2,
            value: 0xe2,
            mode: AddressingMode::Nop2,
            instruction_bytes: 2,
            cycles: 2,
        },
        0xe3u8 => Opcode {
            name: "nope3",
            instruction: Instruction::NopE3,
            value: 0xe3,
            mode: AddressingMode::Implied,
            instruction_bytes: 1,
            cycles: 1,
        },
        0xe4u8 => Opcode {
            name: "cpx",
            instruction: Instruction::Cpx,
            value: 0xe4,
            mode: AddressingMode::ZeroPage,
            instruction_bytes: 2,
            cycles: 3,
        },
        0xe5u8 => Opcode {
            name: "sbc",
            instruction: Instruction::Sbc,
            value: 0xe5,
            mode: AddressingMode::ZeroPage,
            instruction_bytes: 2,
            cycles: 3,
        },
        0xe6u8 => Opcode {
            name: "inc",
            instruction: Instruction::Inc,
            value: 0xe6,
            mode: AddressingMode::ZeroPage,
            instruction_bytes: 2,
            cycles: 5,
        },
        0xe7u8 => Opcode {
            name: "smb6",
            instruction: Instruction::Smb6,
            value: 0xe7,
            mode: AddressingMode::ZeroPage,
            instruction_bytes: 2,
            cycles: 5,
        },
        0xe8u8 => Opcode {
            name: "inx",
            instruction: Instruction::Inx,
            value: 0xe8,
            mode: AddressingMode::Implied,
            instruction_bytes: 1,
            cycles: 2,
        },
        0xe9u8 => Opcode {
            name: "sbc",
            instruction: Instruction::Sbc,
            value: 0xe9,
            mode: AddressingMode::Immediate,
            instruction_bytes: 2,
            cycles: 2,
        },
        0xeau8 => Opcode {
            name: "nop",
            instruction: Instruction::Nop,
            value: 0xea,
            mode: AddressingMode::Implied,
            instruction_bytes: 1,
            cycles: 2,
        },
        0xebu8 => Opcode {
            name: "nopeb",
            instruction: Instruction::NopEB,
            value: 0xeb,
            mode: AddressingMode::Implied,
            instruction_bytes: 1,
            cycles: 1,
        },
        0xecu8 => Opcode {
            name: "cpx",
            instruction: Instruction::Cpx,
            value: 0xec,
            mode: AddressingMode::Absolute,
            instruction_bytes: 3,
            cycles: 4,
        },
        0xedu8 => Opcode {
            name: "sbc",
            instruction: Instruction::Sbc,
            value: 0xed,
            mode: AddressingMode::Absolute,
            instruction_bytes: 3,
            cycles: 4,
        },
        0xeeu8 => Opcode {
            name: "inc",
            instruction: Instruction::Inc,
            value: 0xee,
            mode: AddressingMode::Absolute,
            instruction_bytes: 3,
            cycles: 6,
        },
        0xefu8 => Opcode {
            name: "bbs6",
            instruction: Instruction::Bbs6,
            value: 0xef,
            mode: AddressingMode::ZeroPageRel,
            instruction_bytes: 3,
            cycles: 5,
        },
        0xf0u8 => Opcode {
            name: "beq",
            instruction: Instruction::Beq,
            value: 0xf0,
            mode: AddressingMode::Relative,
            instruction_bytes: 2,
            cycles: 2,
        },
        0xf1u8 => Opcode {
            name: "sbc",
            instruction: Instruction::Sbc,
            value: 0xf1,
            mode: AddressingMode::IndexY,
            instruction_bytes: 2,
            cycles: 5,
        },
        0xf2u8 => Opcode {
            name: "sbc",
            instruction: Instruction::Sbc,
            value: 0xf2,
            mode: AddressingMode::ZeroPageIndirect,
            instruction_bytes: 2,
            cycles: 5,
        },
        0xf3u8 => Opcode {
            name: "nopf3",
            instruction: Instruction::NopF3,
            value: 0xf3,
            mode: AddressingMode::Implied,
            instruction_bytes: 1,
            cycles: 1,
        },
        0xf4u8 => Opcode {
            name: "nopf4",
            instruction: Instruction::Nopf4,
            value: 0xf4,
            mode: AddressingMode::ZeroPageX,
            instruction_bytes: 2,
            cycles: 4,
        },
        0xf5u8 => Opcode {
            name: "sbc",
            instruction: Instruction::Sbc,
            value: 0xf5,
            mode: AddressingMode::ZeroPageX,
            instruction_bytes: 2,
            cycles: 4,
        },
        0xf6u8 => Opcode {
            name: "inc",
            instruction: Instruction::Inc,
            value: 0xf6,
            mode: AddressingMode::ZeroPageX,
            instruction_bytes: 2,
            cycles: 6,
        },
        0xf7u8 => Opcode {
            name: "smb7",
            instruction: Instruction::Smb7,
            value: 0xf7,
            mode: AddressingMode::ZeroPage,
            instruction_bytes: 2,
            cycles: 5,
        },
        0xf8u8 => Opcode {
            name: "sed",
            instruction: Instruction::Sed,
            value: 0xf8,
            mode: AddressingMode::Implied,
            instruction_bytes: 1,
            cycles: 2,
        },
        0xf9u8 => Opcode {
            name: "sbc",
            instruction: Instruction::Sbc,
            value: 0xf9,
            mode: AddressingMode::AbsY,
            instruction_bytes: 3,
            cycles: 4,
        },
        0xfau8 => Opcode {
            name: "plx",
            instruction: Instruction::Plx,
            value: 0xfa,
            mode: AddressingMode::Implied,
            instruction_bytes: 1,
            cycles: 4,
        },
        0xfbu8 => Opcode {
            name: "nopfb",
            instruction: Instruction::NopFB,
            value: 0xfb,
            mode: AddressingMode::Implied,
            instruction_bytes: 1,
            cycles: 1,
        },
        0xfcu8 => Opcode {
            name: "nopfc",
            instruction: Instruction::NopFc,
            value: 0xfc,
            mode: AddressingMode::Absolute,
            instruction_bytes: 3,
            cycles: 4,
        },
        0xfdu8 => Opcode {
            name: "sbc",
            instruction: Instruction::Sbc,
            value: 0xfd,
            mode: AddressingMode::AbsX,
            instruction_bytes: 3,
            cycles: 4,
        },
        0xfeu8 => Opcode {
            name: "inc",
            instruction: Instruction::Inc,
            value: 0xfe,
            mode: AddressingMode::AbsX,
            instruction_bytes: 3,
            cycles: 7,
        },
        0xffu8 => Opcode {
            name: "bbs7",
            instruction: Instruction::Bbs7,
            value: 0xff,
            mode: AddressingMode::ZeroPageRel,
            instruction_bytes: 3,
            cycles: 5,
        },
    }
}

/// Decodes an opcode byte. Every byte has an entry in the table.
pub fn decode_instruction(instruction: u8) -> (r: Option<Opcode>)
    ensures
        r == Some(opcode_table(instruction)),
{
    let op = match instruction {
        0x00u8 => Opcode {
            name: "brk",
            instruction: Instruction::Brk,
            value: 0x00,
            mode: AddressingMode::Implied,
            instruction_bytes: 1,
            cycles: 7,
        },
        0x01u8 => Opcode {
            name: "ora",
            instruction: Instruction::Ora,
            value: 0x01,
            mode: AddressingMode::IndexX,
            instruction_bytes: 2,
            cycles: 6,
        },
        0x02u8 => Opcode {
            name: "nop02",
            instruction: Instruction::Nop02,
            value: 0x02,
            mode: AddressingMode::Nop2,
            instruction_bytes: 2,
            cycles: 2,
        },
        0x03u8 => Opcode {
            name: "nop03",
            instruction: Instruction::Nop03,
            value: 0x03,
            mode: AddressingMode::Implied,
            instruction_bytes: 1,
            cycles: 1,
        },
        0x04u8 => Opcode {
            name: "tsb",
            instruction: Instruction::Tsb,
            value: 0x04,
            mode: AddressingMode::ZeroPage,
            instruction_bytes: 2,
            cycles: 5,
        },
        0x05u8 => Opcode {
            name: "ora",
            instruction: Instruction::Ora,
            value: 0x05,
            mode: AddressingMode::ZeroPage,
            instruction_bytes: 2,
            cycles: 3,
        },
        0x06u8 => Opcode {
            name: "asl",
            instruction: Instruction::Asl,
            value: 0x06,
            mode: AddressingMode::ZeroPage,
            instruction_bytes: 2,
            cycles: 5,
        },
        0x07u8 => Opcode {
            name: "rmb0",
            instruction: Instruction::Rmb0,
            value: 0x07,
            mode: AddressingMode::ZeroPage,
            instruction_bytes: 2,
            cycles: 5,
        },
        0x08u8 => Opcode {
            name: "php",
            instruction: Instruction::Php,
            value: 0x08,
            mode: AddressingMode::Implied,
            instruction_bytes: 1,
            cycles: 3,
        },
        0x09u8 => Opcode {
            name: "ora",
            instruction: Instruction::Ora,
            value: 0x09,
            mode: AddressingMode::Immediate,
            instruction_bytes: 2,
            cycles: 2,
        },
        0x0au8 => Opcode {
            name: "asl",
            instruction: Instruction::Asl,
            value: 0x0a,
            mode: AddressingMode::Accum,
            instruction_bytes: 1,
            cycles: 2,
        },
        0x0bu8 => Opcode {
            name: "nop0b",
            instruction: Instruction::Nop0B,
            value: 0x0b,
            mode: AddressingMode::Implied,
            instruction_bytes: 1,
            cycles: 1,
        },
        0x0cu8 => Opcode {
            name: "tsb",
            instruction: Instruction::Tsb,
            value: 0x0c,
            mode: AddressingMode::Absolute,
            instruction_bytes: 3,
            cycles: 6,
        },
        0x0du8 => Opcode {
            name: "ora",
            instruction: Instruction::Ora,
            value: 0x0d,
            mode: AddressingMode::Absolute,
            instruction_bytes: 3,
            cycles: 4,
        },
        0x0eu8 => Opcode {
            name: "asl",
            instruction: Instruction::Asl,
            value: 0x0e,
            mode: AddressingMode::Absolute,
            instruction_bytes: 3,
            cycles: 6,
        },
        0x0fu8 => Opcode {
            name: "bbr0",
            instruction: Instruction::Bbr0,
            value: 0x0f,
            mode: AddressingMode::ZeroPageRel,
            instruction_bytes: 3,
            cycles: 5,
        },
        0x10u8 => Opcode {
            name: "bpl",
            instruction: Instruction::Bpl,
            value: 0x10,
            mode: AddressingMode::Relative,
            instruction_bytes: 2,
            cycles: 2,
        },
        0x11u8 => Opcode {
            name: "ora",
            instruction: Instruction::Ora,
            value: 0x11,
            mode: AddressingMode::IndexY,
            instruction_bytes: 2,
            cycles: 5,
        },
        0x12u8 => Opcode {
            name: "ora",
            instruction: Instruction::Ora,
            value: 0x12,
            mode: AddressingMode::ZeroPageIndirect,
            instruction_bytes: 2,
            cycles: 5,
        },
        0x13u8 => Opcode {
            name: "nop13",
            instruction: Instruction::Nop13,
            value: 0x13,
            mode: AddressingMode::Implied,
            instruction_bytes: 1,
            cycles: 1,
        },
        0x14u8 => Opcode {
            name: "trb",
            instruction: Instruction::Trb,
            value: 0x14,
            mode: AddressingMode::ZeroPage,
            instruction_bytes: 2,
            cycles: 5,
        },
        0x15u8 => Opcode {
            name: "ora",
            instruction: Instruction::Ora,
            value: 0x15,
            mode: AddressingMode::ZeroPageX,
            instruction_bytes: 2,
            cycles: 4,
        },
        0x16u8 => Opcode {
            name: "asl",
            instruction: Instruction::Asl,
            value: 0x16,
            mode: AddressingMode::ZeroPageX,
            instruction_bytes: 2,
            cycles: 6,
        },
        0x17u8 => Opcode {
            name: "rmb1",
            instruction: Instruction::Rmb1,
            value: 0x17,
            mode: AddressingMode::ZeroPage,
            instruction_bytes: 2,
            cycles: 5,
        },
        0x18u8 => Opcode {
            name: "clc",
            instruction: Instruction::Clc,
            value: 0x18,
            mode: AddressingMode::Implied,
            instruction_bytes: 1,
            cycles: 2,
        },
        0x19u8 => Opcode {
            name: "ora",
            instruction: Instruction::Ora,
            value: 0x19,
            mode: AddressingMode::AbsY,
            instruction_bytes: 3,
            cycles: 4,
        },
        0x1au8 => Opcode {
            name: "inc",
            instruction: Instruction::Inc,
            value: 0x1a,
            mode: AddressingMode::Accum,
            instruction_bytes: 1,
            cycles: 2,
        },
        0x1bu8 => Opcode {
            name: "nop1b",
            instruction: Instruction::Nop1B,
            value: 0x1b,
            mode: AddressingMode::Implied,
            instruction_bytes: 1,
            cycles: 1,
        },
        0x1cu8 => Opcode {
            name: "trb",
            instruction: Instruction::Trb,
            value: 0x1c,
            mode: AddressingMode::Absolute,
            instruction_bytes: 3,
            cycles: 6,
        },
        0x1du8 => Opcode {
            name: "ora",
            instruction: Instruction::Ora,
            value: 0x1d,
            mode: AddressingMode::AbsX,
            instruction_bytes: 3,
            cycles: 4,
        },
        0x1eu8 => Opcode {
            name: "asl",
            instruction: Instruction::Asl,
            value: 0x1e,
            mode: AddressingMode::AbsX,
            instruction_bytes: 3,
            cycles: 7,
        },
        0x1fu8 => Opcode {
            name: "bbr1",
            instruction: Instruction::Bbr1,
            value: 0x1f,
            mode: AddressingMode::ZeroPageRel,
            instruction_bytes: 3,
            cycles: 5,
        },
        0x20u8 => Opcode {
            name: "jsr",
            instruction: Instruction::Jsr,
            value: 0x20,
            mode: AddressingMode::Absolute,
            instruction_bytes: 3,
            cycles: 6,
        },
        0x21u8 => Opcode {
            name: "and",
            instruction: Instruction::And,
            value: 0x21,
            mode: AddressingMode::IndexX,
            instruction_bytes: 2,
            cycles: 6,
        },
        0x22u8 => Opcode {
            name: "nop22",
            instruction: Instruction::Nop22,
            value: 0x22,
            mode: AddressingMode::Nop2,
            instruction_bytes: 2,
            cycles: 2,
        },
        0x23u8 => Opcode {
            name: "nop23",
            instruction: Instruction::Nop23,
            value: 0x23,
            mode: AddressingMode::Implied,
            instruction_bytes: 1,
            cycles: 1,
        },
        0x24u8 => Opcode {
            name: "bit",
            instruction: Instruction::Bit,
            value: 0x24,
            mode: AddressingMode::ZeroPage,
            instruction_bytes: 2,
            cycles: 3,
        },
        0x25u8 => Opcode {
            name: "and",
            instruction: Instruction::And,
            value: 0x25,
            mode: AddressingMode::ZeroPage,
            instruction_bytes: 2,
            cycles: 3,
        },
        0x26u8 => Opcode {
            name: "rol",
            instruction: Instruction::Rol,
            value: 0x26,
            mode: AddressingMode::ZeroPage,
            instruction_bytes: 2,
            cycles: 5,
        },
        0x27u8 => Opcode {
            name: "rmb2",
            instruction: Instruction::Rmb2,
            value: 0x27,
            mode: AddressingMode::ZeroPage,
            instruction_bytes: 2,
            cycles: 5,
        },
        0x28u8 => Opcode {
            name: "plp",
            instruction: Instruction::Plp,
            value: 0x28,
            mode: AddressingMode::Implied,
            instruction_bytes: 1,
            cycles: 4,
        },
        0x29u8 => Opcode {
            name: "and",
            instruction: Instruction::And,
            value: 0x29,
            mode: AddressingMode::Immediate,
            instruction_bytes: 2,
            cycles: 2,
        },
        0x2au8 => Opcode {
            name: "rol",
            instruction: Instruction::Rol,
            value: 0x2a,
            mode: AddressingMode::Accum,
            instruction_bytes: 1,
            cycles: 2,
        },
        0x2bu8 => Opcode {
            name: "nop2b",
            instruction: Instruction::Nop2B,
            value: 0x2b,
            mode: AddressingMode::Implied,
            instruction_bytes: 1,
            cycles: 1,
        },
        0x2cu8 => Opcode {
            name: "bit",
            instruction: Instruction::Bit,
            value: 0x2c,
            mode: AddressingMode::Absolute,
            instruction_bytes: 3,
            cycles: 4,
        },
        0x2du8 => Opcode {
            name: "and",
            instruction: Instruction::And,
            value: 0x2d,
            mode: AddressingMode::Absolute,
            instruction_bytes: 3,
            cycles: 4,
        },
        0x2eu8 => Opcode {
            name: "rol",
            instruction: Instruction::Rol,
            value: 0x2e,
            mode: AddressingMode::Absolute,
            instruction_bytes: 3,
            cycles: 6,
        },
        0x2fu8 => Opcode {
            name: "bbr2",
            instruction: Instruction::Bbr2,
            value: 0x2f,
            mode: AddressingMode::ZeroPageRel,
            instruction_bytes: 3,
            cycles: 5,
        },
        0x30u8 => Opcode {
            name: "bmi",
            instruction: Instruction::Bmi,
            value: 0x30,
            mode: AddressingMode::Relative,
            instruction_bytes: 2,
            cycles: 2,
        },
        0x31u8 => Opcode {
            name: "and",
            instruction: Instruction::And,
            value: 0x31,
            mode: AddressingMode::IndexY,
            instruction_bytes: 2,
            cycles: 5,
        },
        0x32u8 => Opcode {
            name: "and",
            instruction: Instruction::And,
            value: 0x32,
            mode: AddressingMode::ZeroPageIndirect,
            instruction_bytes: 2,
            cycles: 5,
        },
        0x33u8 => Opcode {
            name: "nop33",
            instruction: Instruction::Nop33,
            value: 0x33,
            mode: AddressingMode::Implied,
            instruction_bytes: 1,
            cycles: 1,
        },
        0x34u8 => Opcode {
            name: "bit",
            instruction: Instruction::Bit,
            value: 0x34,
            mode: AddressingMode::ZeroPageX,
            instruction_bytes: 2,
            cycles: 3,
        },
        0x35u8 => Opcode {
            name: "and",
            instruction: Instruction::And,
            value: 0x35,
            mode: AddressingMode::ZeroPageX,
            instruction_bytes: 2,
            cycles: 4,
        },
        0x36u8 => Opcode {
            name: "rol",
            instruction: Instruction::Rol,
            value: 0x36,
            mode: AddressingMode::ZeroPageX,
            instruction_bytes: 2,
            cycles: 6,
        },
        0x37u8 => Opcode {
            name: "rmb3",
            instruction: Instruction::Rmb3,
            value: 0x37,
            mode: AddressingMode::ZeroPage,
            instruction_bytes: 2,
            cycles: 5,
        },
        0x38u8 => Opcode {
            name: "sec",
            instruction: Instruction::Sec,
            value: 0x38,
            mode: AddressingMode::Implied,
            instruction_bytes: 1,
            cycles: 2,
        },
        0x39u8 => Opcode {
            name: "and",
            instruction: Instruction::And,
            value: 0x39,
            mode: AddressingMode::AbsY,
            instruction_bytes: 3,
            cycles: 4,
        },
        0x3au8 => Opcode {
            name: "dec",
            instruction: Instruction::Dec,
            value: 0x3a,
            mode: AddressingMode::Accum,
            instruction_bytes: 1,
            cycles: 2,
        },
        0x3bu8 => Opcode {
            name: "nop3b",
            instruction: Instruction::Nop3B,
            value: 0x3b,
            mode: AddressingMode::Implied,
            instruction_bytes: 1,
            cycles: 1,
        },
        0x3cu8 => Opcode {
            name: "bit",
            instruction: Instruction::Bit,
            value: 0x3c,
            mode: AddressingMode::AbsX,
            instruction_bytes: 3,
            cycles: 4,
        },
        0x3du8 => Opcode {
            name: "and",
            instruction: Instruction::And,
            value: 0x3d,
            mode: AddressingMode::AbsX,
            instruction_bytes: 3,
            cycles: 4,
        },
        0x3eu8 => Opcode {
            name: "rol",
            instruction: Instruction::Rol,
            value: 0x3e,
            mode: AddressingMode::AbsX,
            instruction_bytes: 3,
            cycles: 7,
        },
        0x3fu8 => Opcode {
            name: "bbr3",
            instruction: Instruction::Bbr3,
            value: 0x3f,
            mode: AddressingMode::ZeroPageRel,
            instruction_bytes: 3,
            cycles: 5,
        },
        0x40u8 => Opcode {
            name: "rti",
            instruction: Instruction::Rti,
            value: 0x40,
            mode: AddressingMode::Implied,
            instruction_bytes: 1,
            cycles: 6,
        },
        0x41u8 => Opcode {
            name: "eor",
            instruction: Instruction::Eor,
            value: 0x41,
            mode: AddressingMode::IndexX,
            instruction_bytes: 2,
            cycles: 6,
        },
        0x42u8 => Opcode {
            name: "nop42",
            instruction: Instruction::Nop42,
            value: 0x42,
            mode: AddressingMode::Nop2,
            instruction_bytes: 2,
            cycles: 2,
        },
        0x43u8 => Opcode {
            name: "nop43",
            instruction: Instruction::Nop43,
            value: 0x43,
            mode: AddressingMode::Implied,
            instruction_bytes: 1,
            cycles: 1,
        },
        0x44u8 => Opcode {
            name: "nop44",
            instruction: Instruction::Nop44,
            value: 0x44,
            mode: AddressingMode::ZeroPage,
            instruction_bytes: 2,
            cycles: 3,
        },
        0x45u8 => Opcode {
            name: "eor",
            instruction: Instruction::Eor,
            value: 0x45,
            mode: AddressingMode::ZeroPage,
            instruction_bytes: 2,
            cycles: 3,
        },
        0x46u8 => Opcode {
            name: "lsr",
            instruction: Instruction::Lsr,
            value: 0x46,
            mode: AddressingMode::ZeroPage,
            instruction_bytes: 2,
            cycles: 5,
        },
        0x47u8 => Opcode {
            name: "rmb4",
            instruction: Instruction::Rmb4,
            value: 0x47,
            mode: AddressingMode::ZeroPage,
            instruction_bytes: 2,
            cycles: 5,
        },
        0x48u8 => Opcode {
            name: "pha",
            instruction: Instruction::Pha,
            value: 0x48,
            mode: AddressingMode::Implied,
            instruction_bytes: 1,
            cycles: 3,
        },
        0x49u8 => Opcode {
            name: "eor",
            instruction: Instruction::Eor,
            value: 0x49,
            mode: AddressingMode::Immediate,
            instruction_bytes: 2,
            cycles: 2,
        },
        0x4au8 => Opcode {
            name: "lsr",
            instruction: Instruction::Lsr,
            value: 0x4a,
            mode: AddressingMode::Accum,
            instruction_bytes: 1,
            cycles: 2,
        },
        0x4bu8 => Opcode {
            name: "nop4b",
            instruction: Instruction::Nop4B,
            value: 0x4b,
            mode: AddressingMode::Implied,
            instruction_bytes: 1,
            cycles: 1,
        },
        0x4cu8 => Opcode {
            name: "jmp",
            instruction: Instruction::Jmp,
            value: 0x4c,
            mode: AddressingMode::Absolute,
            instruction_bytes: 3,
            cycles: 3,
        },
        0x4du8 => Opcode {
            name: "eor",
            instruction: Instruction::Eor,
            value: 0x4d,
            mode: AddressingMode::Absolute,
            instruction_bytes: 3,
            cycles: 4,
        },
        0x4eu8 => Opcode {
            name: "lsr",
            instruction: Instruction::Lsr,
            value: 0x4e,
            mode: AddressingMode::Absolute,
            instruction_bytes: 3,
            cycles: 6,
        },
        0x4fu8 => Opcode {
            name: "bbr4",
            instruction: Instruction::Bbr4,
            value: 0x4f,
            mode: AddressingMode::ZeroPageRel,
            instruction_bytes: 3,
            cycles: 5,
        },
        0x50u8 => Opcode {
            name: "bvc",
            instruction: Instruction::Bvc,
            value: 0x50,
            mode: AddressingMode::Relative,
            instruction_bytes: 2,
            cycles: 2,
        },
        0x51u8 => Opcode {
            name: "eor",
            instruction: Instruction::Eor,
            value: 0x51,
            mode: AddressingMode::IndexY,
            instruction_bytes: 2,
            cycles: 5,
        },
        0x52u8 => Opcode {
            name: "eor",
            instruction: Instruction::Eor,
            value: 0x52,
            mode: AddressingMode::ZeroPageIndirect,
            instruction_bytes: 2,
            cycles: 5,
        },
        0x53u8 => Opcode {
            name: "nop53",
            instruction: Instruction::Nop53,
            value: 0x53,
            mode: AddressingMode::Implied,
            instruction_bytes: 1,
            cycles: 1,
        },
        0x54u8 => Opcode {
            name: "nop54",
            instruction: Instruction::Nop54,
            value: 0x54,
            mode: AddressingMode::ZeroPageX,
            instruction_bytes: 2,
            cycles: 4,
        },
        0x55u8 => Opcode {
            name: "eor",
            instruction: Instruction::Eor,
            value: 0x55,
            mode: AddressingMode::ZeroPageX,
            instruction_bytes: 2,
            cycles: 4,
        },
        0x56u8 => Opcode {
            name: "lsr",
            instruction: Instruction::Lsr,
            value: 0x56,
            mode: AddressingMode::ZeroPageX,
            instruction_bytes: 2,
            cycles: 6,
        },
        0x57u8 => Opcode {
            name: "rmb5",
            instruction: Instruction::Rmb5,
            value: 0x57,
            mode: AddressingMode::ZeroPage,
            instruction_bytes: 2,
            cycles: 5,
        },
        0x58u8 => Opcode {
            name: "cli",
            instruction: Instruction::Cli,
            value: 0x58,
            mode: AddressingMode::Implied,
            instruction_bytes: 1,
            cycles: 2,
        },
        0x59u8 => Opcode {
            name: "eor",
            instruction: Instruction::Eor,
            value: 0x59,
            mode: AddressingMode::AbsY,
            instruction_bytes: 3,
            cycles: 4,
        },
        0x5au8 => Opcode {
            name: "phy",
            instruction: Instruction::Phy,
            value: 0x5a,
            mode: AddressingMode::Implied,
            instruction_bytes: 1,
            cycles: 3,
        },
        0x5bu8 => Opcode {
            name: "nop5b",
            instruction: Instruction::Nop5B,
            value: 0x5b,
            mode: AddressingMode::Implied,
            instruction_bytes: 1,
            cycles: 1,
        },
        0x5cu8 => Opcode {
            name: "nop5c",
            instruction: Instruction::Nop5c,
            value: 0x5c,
            mode: AddressingMode::Absolute,
            instruction_bytes: 3,
            cycles: 8,
        },
        0x5du8 => Opcode {
            name: "eor",
            instruction: Instruction::Eor,
            value: 0x5d,
            mode: AddressingMode::AbsX,
            instruction_bytes: 3,
            cycles: 4,
        },
        0x5eu8 => Opcode {
            name: "lsr",
            instruction: Instruction::Lsr,
            value: 0x5e,
            mode: AddressingMode::AbsX,
            instruction_bytes: 3,
            cycles: 7,
        },
        0x5fu8 => Opcode {
            name: "bbr5",
            instruction: Instruction::Bbr5,
            value: 0x5f,
            mode: AddressingMode::ZeroPageRel,
            instruction_bytes: 3,
            cycles: 5,
        },
        0x60u8 => Opcode {
            name: "rts",
            instruction: Instruction::Rts,
            value: 0x60,
            mode: AddressingMode::Implied,
            instruction_bytes: 1,
            cycles: 6,
        },
        0x61u8 => Opcode {
            name: "adc",
            instruction: Instruction::Adc,
            value: 0x61,
            mode: AddressingMode::IndexX,
            instruction_bytes: 2,
            cycles: 6,
        },
        0x62u8 => Opcode {
            name: "nop62",
            instruction: Instruction::Nop62,
            value: 0x62,
            mode: AddressingMode::Nop2,
            instruction_bytes: 2,
            cycles: 2,
        },
        0x63u8 => Opcode {
            name: "nop63",
            instruction: Instruction::Nop63,
            value: 0x63,
            mode: AddressingMode::Implied,
            instruction_bytes: 1,
            cycles: 1,
        },
        0x64u8 => Opcode {
            name: "stz",
            instruction: Instruction::Stz,
            value: 0x64,
            mode: AddressingMode::ZeroPage,
            instruction_bytes: 2,
            cycles: 3,
        },
        0x65u8 => Opcode {
            name: "adc",
            instruction: Instruction::Adc,
            value: 0x65,
            mode: AddressingMode::ZeroPage,
            instruction_bytes: 2,
            cycles: 3,
        },
        0x66u8 => Opcode {
            name: "ror",
            instruction: Instruction::Ror,
            value: 0x66,
            mode: AddressingMode::ZeroPage,
            instruction_bytes: 2,
            cycles: 5,
        },
        0x67u8 => Opcode {
            name: "rmb6",
            instruction: Instruction::Rmb6,
            value: 0x67,
            mode: AddressingMode::ZeroPage,
            instruction_bytes: 2,
            cycles: 5,
        },
        0x68u8 => Opcode {
            name: "pla",
            instruction: Instruction::Pla,
            value: 0x68,
            mode: AddressingMode::Implied,
            instruction_bytes: 1,
            cycles: 4,
        },
        0x69u8 => Opcode {
            name: "adc",
            instruction: Instruction::Adc,
            value: 0x69,
            mode: AddressingMode::Immediate,
            instruction_bytes: 2,
            cycles: 2,
        },
        0x6au8 => Opcode {
            name: "ror",
            instruction: Instruction::Ror,
            value: 0x6a,
            mode: AddressingMode::Accum,
            instruction_bytes: 1,
            cycles: 2,
        },
        0x6bu8 => Opcode {
            name: "nop6b",
            instruction: Instruction::Nop6B,
            value: 0x6b,
            mode: AddressingMode::Implied,
            instruction_bytes: 1,
            cycles: 1,
        },
        0x6cu8 => Opcode {
            name: "jmp",
            instruction: Instruction::Jmp,
            value: 0x6c,
            mode: AddressingMode::Indirect,
            instruction_bytes: 3,
            cycles: 5,
        },
        0x6du8 => Opcode {
            name: "adc",
            instruction: Instruction::Adc,
            value: 0x6d,
            mode: AddressingMode::Absolute,
            instruction_bytes: 3,
            cycles: 4,
        },
        0x6eu8 => Opcode {
            name: "ror",
            instruction: Instruction::Ror,
            value: 0x6e,
            mode: AddressingMode::Absolute,
            instruction_bytes: 3,
            cycles: 6,
        },
        0x6fu8 => Opcode {
            name: "bbr6",
            instruction: Instruction::Bbr6,
            value: 0x6f,
            mode: AddressingMode::ZeroPageRel,
            instruction_bytes: 3,
            cycles: 5,
        },
        0x70u8 => Opcode {
            name: "bvs",
            instruction: Instruction::Bvs,
            value: 0x70,
            mode: AddressingMode::Relative,
            instruction_bytes: 2,
            cycles: 2,
        },
        0x71u8 => Opcode {
            name: "adc",
            instruction: Instruction::Adc,
            value: 0x71,
            mode: AddressingMode::IndexY,
            instruction_bytes: 2,
            cycles: 5,
        },
        0x72u8 => Opcode {
            name: "adc",
            instruction: Instruction::Adc,
            value: 0x72,
            mode: AddressingMode::ZeroPageIndirect,
            instruction_bytes: 2,
            cycles: 5,
        },
        0x73u8 => Opcode {
            name: "nop73",
            instruction: Instruction::Nop73,
            value: 0x73,
            mode: AddressingMode::Implied,
            instruction_bytes: 1,
            cycles: 1,
        },
        0x74u8 => Opcode {
            name: "stz",
            instruction: Instruction::Stz,
            value: 0x74,
            mode: AddressingMode::ZeroPageX,
            instruction_bytes: 2,
            cycles: 4,
        },
        0x75u8 => Opcode {
            name: "adc",
            instruction: Instruction::Adc,
            value: 0x75,
            mode: AddressingMode::ZeroPageX,
            instruction_bytes: 2,
            cycles: 4,
        },
        0x76u8 => Opcode {
            name: "ror",
            instruction: Instruction::Ror,
            value: 0x76,
            mode: AddressingMode::ZeroPageX,
            instruction_bytes: 2,
            cycles: 6,
        },
        0x77u8 => Opcode {
            name: "rmb7",
            instruction: Instruction::Rmb7,
            value: 0x77,
            mode: AddressingMode::ZeroPage,
            instruction_bytes: 2,
            cycles: 5,
        },
        0x78u8 => Opcode {
            name: "sei",
            instruction: Instruction::Sei,
            value: 0x78,
            mode: AddressingMode::Implied,
            instruction_bytes: 1,
            cycles: 2,
        },
        0x79u8 => Opcode {
            name: "adc",
            instruction: Instruction::Adc,
            value: 0x79,
            mode: AddressingMode::AbsY,
            instruction_bytes: 3,
            cycles: 4,
        },
        0x7au8 => Opcode {
            name: "ply",
            instruction: Instruction::Ply,
            value: 0x7a,
            mode: AddressingMode::Implied,
            instruction_bytes: 1,
            cycles: 4,
        },
        0x7bu8 => Opcode {
            name: "nop7b",
            instruction: Instruction::Nop7B,
            value: 0x7b,
            mode: AddressingMode::Implied,
            instruction_bytes: 1,
            cycles: 1,
        },
        0x7cu8 => Opcode {
            name: "jmp",
            instruction: Instruction::Jmp,
            value: 0x7c,
            mode: AddressingMode::AbsXIndirect,
            instruction_bytes: 3,
            cycles: 6,
        },
        0x7du8 => Opcode {
            name: "adc",
            instruction: Instruction::Adc,
            value: 0x7d,
            mode: AddressingMode::AbsX,
            instruction_bytes: 3,
            cycles: 4,
        },
        0x7eu8 => Opcode {
            name: "ror",
            instruction: Instruction::Ror,
            value: 0x7e,
            mode: AddressingMode::AbsX,
            instruction_bytes: 3,
            cycles: 7,
        },
        0x7fu8 => Opcode {
            name: "bbr7",
            instruction: Instruction::Bbr7,
            value: 0x7f,
            mode: AddressingMode::ZeroPageRel,
            instruction_bytes: 3,
            cycles: 5,
        },
        0x80u8 => Opcode {
            name: "bra",
            instruction: Instruction::Bra,
            value: 0x80,
            mode: AddressingMode::Relative,
            instruction_bytes: 2,
            cycles: 3,
        },
        0x81u8 => Opcode {
            name: "sta",
            instruction: Instruction::Sta,
            value: 0x81,
            mode: AddressingMode::IndexX,
            instruction_bytes: 2,
            cycles: 6,
        },
        0x82u8 => Opcode {
            name: "nop82",
            instruction: Instruction::Nop82,
            value: 0x82,
            mode: AddressingMode::Nop2,
            instruction_bytes: 2,
            cycles: 2,
        },
        0x83u8 => Opcode {
            name: "nop83",
            instruction: Instruction::Nop83,
            value: 0x83,
            mode: AddressingMode::Implied,
            instruction_bytes: 1,
            cycles: 1,
        },
        0x84u8 => Opcode {
            name: "sty",
            instruction: Instruction::Sty,
            value: 0x84,
            mode: AddressingMode::ZeroPage,
            instruction_bytes: 2,
            cycles: 3,
        },
        0x85u8 => Opcode {
            name: "sta",
            instruction: Instruction::Sta,
            value: 0x85,
            mode: AddressingMode::ZeroPage,
            instruction_bytes: 2,
            cycles: 3,
        },
        0x86u8 => Opcode {
            name: "stx",
            instruction: Instruction::Stx,
            value: 0x86,
            mode: AddressingMode::ZeroPage,
            instruction_bytes: 2,
            cycles: 3,
        },
        0x87u8 => Opcode {
            name: "smb0",
            instruction: Instruction::Smb0,
            value: 0x87,
            mode: AddressingMode::ZeroPage,
            instruction_bytes: 2,
            cycles: 5,
        },
        0x88u8 => Opcode {
            name: "dey",
            instruction: Instruction::Dey,
            value: 0x88,
            mode: AddressingMode::Implied,
            instruction_bytes: 1,
            cycles: 2,
        },
        0x89u8 => Opcode {
            name: "bit",
            instruction: Instruction::Bit,
            value: 0x89,
            mode: AddressingMode::Immediate,
            instruction_bytes: 2,
            cycles: 2,
        },
        0x8au8 => Opcode {
            name: "txa",
            instruction: Instruction::Txa,
            value: 0x8a,
            mode: AddressingMode::Implied,
            instruction_bytes: 1,
            cycles: 2,
        },
        0x8bu8 => Opcode {
            name: "nop8b",
            instruction: Instruction::Nop8B,
            value: 0x8b,
            mode: AddressingMode::Implied,
            instruction_bytes: 1,
            cycles: 1,
        },
        0x8cu8 => Opcode {
            name: "sty",
            instruction: Instruction::Sty,
            value: 0x8c,
            mode: AddressingMode::Absolute,
            instruction_bytes: 3,
            cycles: 4,
        },
        0x8du8 => Opcode {
            name: "sta",
            instruction: Instruction::Sta,
            value: 0x8d,
            mode: AddressingMode::Absolute,
            instruction_bytes: 3,
            cycles: 4,
        },
        0x8eu8 => Opcode {
            name: "stx",
            instruction: Instruction::Stx,
            value: 0x8e,
            mode: AddressingMode::Absolute,
            instruction_bytes: 3,
            cycles: 4,
        },
        0x8fu8 => Opcode {
            name: "bbs0",
            instruction: Instruction::Bbs0,
            value: 0x8f,
            mode: AddressingMode::ZeroPageRel,
            instruction_bytes: 3,
            cycles: 5,
        },
        0x90u8 => Opcode {
            name: "bcc",
            instruction: Instruction::Bcc,
            value: 0x90,
            mode: AddressingMode::Relative,
            instruction_bytes: 2,
            cycles: 2,
        },
        0x91u8 => Opcode {
            name: "sta",
            instruction: Instruction::Sta,
            value: 0x91,
            mode: AddressingMode::IndexY,
            instruction_bytes: 2,
            cycles: 6,
        },
        0x92u8 => Opcode {
            name: "sta",
            instruction: Instruction::Sta,
            value: 0x92,
            mode: AddressingMode::ZeroPageIndirect,
            instruction_bytes: 2,
            cycles: 5,
        },
        0x93u8 => Opcode {
            name: "nop93",
            instruction: Instruction::Nop93,
            value: 0x93,
            mode: AddressingMode::Implied,
            instruction_bytes: 1,
            cycles: 1,
        },
        0x94u8 => Opcode {
            name: "sty",
            instruction: Instruction::Sty,
            value: 0x94,
            mode: AddressingMode::ZeroPageX,
            instruction_bytes: 2,
            cycles: 4,
        },
        0x95u8 => Opcode {
            name: "sta",
            instruction: Instruction::Sta,
            value: 0x95,
            mode: AddressingMode::ZeroPageX,
            instruction_bytes: 2,
            cycles: 4,
        },
        0x96u8 => Opcode {
            name: "stx",
            instruction: Instruction::Stx,
            value: 0x96,
            mode: AddressingMode::ZeroPageY,
            instruction_bytes: 2,
            cycles: 4,
        },
        0x97u8 => Opcode {
            name: "smb1",
            instruction: Instruction::Smb1,
            value: 0x97,
            mode: AddressingMode::ZeroPage,
            instruction_bytes: 2,
            cycles: 5,
        },
        0x98u8 => Opcode {
            name: "tya",
            instruction: Instruction::Tya,
            value: 0x98,
            mode: AddressingMode::Implied,
            instruction_bytes: 1,
            cycles: 2,
        },
        0x99u8 => Opcode {
            name: "sta",
            instruction: Instruction::Sta,
            value: 0x99,
            mode: AddressingMode::AbsY,
            instruction_bytes: 3,
            cycles: 5,
        },
        0x9au8 => Opcode {
            name: "txs",
            instruction: Instruction::Txs,
            value: 0x9a,
            mode: AddressingMode::Implied,
            instruction_bytes: 1,
            cycles: 2,
        },
        0x9bu8 => Opcode {
            name: "nop9b",
            instruction: Instruction::Nop9B,
            value: 0x9b,
            mode: AddressingMode::Implied,
            instruction_bytes: 1,
            cycles: 1,
        },
        0x9cu8 => Opcode {
            name: "stz",
            instruction: Instruction::Stz,
            value: 0x9c,
            mode: AddressingMode::Absolute,
            instruction_bytes: 3,
            cycles: 4,
        },
        0x9du8 => Opcode {
            name: "sta",
            instruction: Instruction::Sta,
            value: 0x9d,
            mode: AddressingMode::AbsX,
            instruction_bytes: 3,
            cycles: 5,
        },
        0x9eu8 => Opcode {
            name: "stz",
            instruction: Instruction::Stz,
            value: 0x9e,
            mode: AddressingMode::AbsX,
            instruction_bytes: 3,
            cycles: 5,
        },
        0x9fu8 => Opcode {
            name: "bbs1",
            instruction: Instruction::Bbs1,
            value: 0x9f,
            mode: AddressingMode::ZeroPageRel,
            instruction_bytes: 3,
            cycles: 5,
        },
        0xa0u8 => Opcode {
            name: "ldy",
            instruction: Instruction::Ldy,
            value: 0xa0,
            mode: AddressingMode::Immediate,
            instruction_bytes: 2,
            cycles: 2,
        },
        0xa1u8 => Opcode {
            name: "lda",
            instruction: Instruction::Lda,
            value: 0xa1,
            mode: AddressingMode::IndexX,
            instruction_bytes: 2,
            cycles: 6,
        },
        0xa2u8 => Opcode {
            name: "ldx",
            instruction: Instruction::Ldx,
            value: 0xa2,
            mode: AddressingMode::Immediate,
            instruction_bytes: 2,
            cycles: 2,
        },
        0xa3u8 => Opcode {
            name: "nopa3",
            instruction: Instruction::NopA3,
            value: 0xa3,
            mode: AddressingMode::Implied,
            instruction_bytes: 1,
            cycles: 1,
        },
        0xa4u8 => Opcode {
            name: "ldy",
            instruction: Instruction::Ldy,
            value: 0xa4,
            mode: AddressingMode::ZeroPage,
            instruction_bytes: 2,
            cycles: 3,
        },
        0xa5u8 => Opcode {
            name: "lda",
            instruction: Instruction::Lda,
            value: 0xa5,
            mode: AddressingMode::ZeroPage,
            instruction_bytes: 2,
            cycles: 3,
        },
        0xa6u8 => Opcode {
            name: "ldx",
            instruction: Instruction::Ldx,
            value: 0xa6,
            mode: AddressingMode::ZeroPage,
            instruction_bytes: 2,
            cycles: 3,
        },
        0xa7u8 => Opcode {
            name: "smb2",
            instruction: Instruction::Smb2,
            value: 0xa7,
            mode: AddressingMode::ZeroPage,
            instruction_bytes: 2,
            cycles: 5,
        },
        0xa8u8 => Opcode {
            name: "tay",
            instruction: Instruction::Tay,
            value: 0xa8,
            mode: AddressingMode::Implied,
            instruction_bytes: 1,
            cycles: 2,
        },
        0xa9u8 => Opcode {
            name: "lda",
            instruction: Instruction::Lda,
            value: 0xa9,
            mode: AddressingMode::Immediate,
            instruction_bytes: 2,
            cycles: 2,
        },
        0xaau8 => Opcode {
            name: "tax",
            instruction: Instruction::Tax,
            value: 0xaa,
            mode: AddressingMode::Implied,
            instruction_bytes: 1,
            cycles: 2,
        },
        0xabu8 => Opcode {
            name: "nopab",
            instruction: Instruction::NopAB,
            value: 0xab,
            mode: AddressingMode::Implied,
            instruction_bytes: 1,
            cycles: 1,
        },
        0xacu8 => Opcode {
            name: "ldy",
            instruction: Instruction::Ldy,
            value: 0xac,
            mode: AddressingMode::Absolute,
            instruction_bytes: 3,
            cycles: 4,
        },
        0xadu8 => Opcode {
            name: "lda",
            instruction: Instruction::Lda,
            value: 0xad,
            mode: AddressingMode::Absolute,
            instruction_bytes: 3,
            cycles: 4,
        },
        0xaeu8 => Opcode {
            name: "ldx",
            instruction: Instruction::Ldx,
            value: 0xae,
            mode: AddressingMode::Absolute,
            instruction_bytes: 3,
            cycles: 4,
        },
        0xafu8 => Opcode {
            name: "bbs2",
            instruction: Instruction::Bbs2,
            value: 0xaf,
            mode: AddressingMode::ZeroPageRel,
            instruction_bytes: 3,
            cycles: 5,
        },
        0xb0u8 => Opcode {
            name: "bcs",
            instruction: Instruction::Bcs,
            value: 0xb0,
            mode: AddressingMode::Relative,
            instruction_bytes: 2,
            cycles: 2,
        },
        0xb1u8 => Opcode {
            name: "lda",
            instruction: Instruction::Lda,
            value: 0xb1,
            mode: AddressingMode::IndexY,
            instruction_bytes: 2,
            cycles: 5,
        },
        0xb2u8 => Opcode {
            name: "lda",
            instruction: Instruction::Lda,
            value: 0xb2,
            mode: AddressingMode::ZeroPageIndirect,
            instruction_bytes: 2,
            cycles: 5,
        },
        0xb3u8 => Opcode {
            name: "nopb3",
            instruction: Instruction::NopB3,
            value: 0xb3,
            mode: AddressingMode::Implied,
            instruction_bytes: 1,
            cycles: 1,
        },
        0xb4u8 => Opcode {
            name: "ldy",
            instruction: Instruction::Ldy,
            value: 0xb4,
            mode: AddressingMode::ZeroPageX,
            instruction_bytes: 2,
            cycles: 4,
        },
        0xb5u8 => Opcode {
            name: "lda",
            instruction: Instruction::Lda,
            value: 0xb5,
            mode: AddressingMode::ZeroPageX,
            instruction_bytes: 2,
            cycles: 4,
        },
        0xb6u8 => Opcode {
            name: "ldx",
            instruction: Instruction::Ldx,
            value: 0xb6,
            mode: AddressingMode::ZeroPageY,
            instruction_bytes: 2,
            cycles: 4,
        },
        0xb7u8 => Opcode {
            name: "smb3",
            instruction: Instruction::Smb3,
            value: 0xb7,
            mode: AddressingMode::ZeroPage,
            instruction_bytes: 2,
            cycles: 5,
        },
        0xb8u8 => Opcode {
            name: "clv",
            instruction: Instruction::Clv,
            value: 0xb8,
            mode: AddressingMode::Implied,
            instruction_bytes: 1,
            cycles: 2,
        },
        0xb9u8 => Opcode {
            name: "lda",
            instruction: Instruction::Lda,
            value: 0xb9,
            mode: AddressingMode::AbsY,
            instruction_bytes: 3,
            cycles: 4,
        },
        0xbau8 => Opcode {
            name: "tsx",
            instruction: Instruction::Tsx,
            value: 0xba,
            mode: AddressingMode::Implied,
            instruction_bytes: 1,
            cycles: 2,
        },
        0xbbu8 => Opcode {
            name: "nopbb",
            instruction: Instruction::NopBB,
            value: 0xbb,
            mode: AddressingMode::Implied,
            instruction_bytes: 1,
            cycles: 1,
        },
        0xbcu8 => Opcode {
            name: "ldy",
            instruction: Instruction::Ldy,
            value: 0xbc,
            mode: AddressingMode::AbsX,
            instruction_bytes: 3,
            cycles: 4,
        },
        0xbdu8 => Opcode {
            name: "lda",
            instruction: Instruction::Lda,
            value: 0xbd,
            mode: AddressingMode::AbsX,
            instruction_bytes: 3,
            cycles: 4,
        },
        0xbeu8 => Opcode {
            name: "ldx",
            instruction: Instruction::Ldx,
            value: 0xbe,
            mode: AddressingMode::AbsY,
            instruction_bytes: 3,
            cycles: 4,
        },
        0xbfu8 => Opcode {
            name: "bbs3",
            instruction: Instruction::Bbs3,
            value: 0xbf,
            mode: AddressingMode::ZeroPageRel,
            instruction_bytes: 3,
            cycles: 5,
        },
        0xc0u8 => Opcode {
            name: "cpy",
            instruction: Instruction::Cpy,
            value: 0xc0,
            mode: AddressingMode::Immediate,
            instruction_bytes: 2,
            cycles: 2,
        },
        0xc1u8 => Opcode {
            name: "cmp",
            instruction: Instruction::Cmp,
            value: 0xc1,
            mode: AddressingMode::IndexX,
            instruction_bytes: 2,
            cycles: 6,
        },
        0xc2u8 => Opcode {
            name: "nopc2",
            instruction: Instruction::NopC2,
            value: 0xc2,
            mode: AddressingMode::Nop2,
            instruction_bytes: 2,
            cycles: 2,
        },
        0xc3u8 => Opcode {
            name: "nopc3",
            instruction: Instruction::NopC3,
            value: 0xc3,
            mode: AddressingMode::Implied,
            instruction_bytes: 1,
            cycles: 1,
        },
        0xc4u8 => Opcode {
            name: "cpy",
            instruction: Instruction::Cpy,
            value: 0xc4,
            mode: AddressingMode::ZeroPage,
            instruction_bytes: 2,
            cycles: 3,
        },
        0xc5u8 => Opcode {
            name: "cmp",
            instruction: Instruction::Cmp,
            value: 0xc5,
            mode: AddressingMode::ZeroPage,
            instruction_bytes: 2,
            cycles: 3,
        },
        0xc6u8 => Opcode {
            name: "dec",
            instruction: Instruction::Dec,
            value: 0xc6,
            mode: AddressingMode::ZeroPage,
            instruction_bytes: 2,
            cycles: 5,
        },
        0xc7u8 => Opcode {
            name: "smb4",
            instruction: Instruction::Smb4,
            value: 0xc7,
            mode: AddressingMode::ZeroPage,
            instruction_bytes: 2,
            cycles: 5,
        },
        0xc8u8 => Opcode {
            name: "iny",
            instruction: Instruction::Iny,
            value: 0xc8,
            mode: AddressingMode::Implied,
            instruction_bytes: 1,
            cycles: 2,
        },
        0xc9u8 => Opcode {
            name: "cmp",
            instruction: Instruction::Cmp,
            value: 0xc9,
            mode: AddressingMode::Immediate,
            instruction_bytes: 2,
            cycles: 2,
        },
        0xcau8 => Opcode {
            name: "dex",
            instruction: Instruction::Dex,
            value: 0xca,
            mode: AddressingMode::Implied,
            instruction_bytes: 1,
            cycles: 2,
        },
        0xcbu8 => Opcode {
            name: "wai",
            instruction: Instruction::Wai,
            value: 0xcb,
            mode: AddressingMode::Implied,
            instruction_bytes: 1,
            cycles: 3,
        },
        0xccu8 => Opcode {
            name: "cpy",
            instruction: Instruction::Cpy,
            value: 0xcc,
            mode: AddressingMode::Absolute,
            instruction_bytes: 3,
            cycles: 4,
        },
        0xcdu8 => Opcode {
            name: "cmp",
            instruction: Instruction::Cmp,
            value: 0xcd,
            mode: AddressingMode::Absolute,
            instruction_bytes: 3,
            cycles: 4,
        },
        0xceu8 => Opcode {
            name: "dec",
            instruction: Instruction::Dec,
            value: 0xce,
            mode: AddressingMode::Absolute,
            instruction_bytes: 3,
            cycles: 6,
        },
        0xcfu8 => Opcode {
            name: "bbs4",
            instruction: Instruction::Bbs4,
            value: 0xcf,
            mode: AddressingMode::ZeroPageRel,
            instruction_bytes: 3,
            cycles: 5,
        },
        0xd0u8 => Opcode {
            name: "bne",
            instruction: Instruction::Bne,
            value: 0xd0,
            mode: AddressingMode::Relative,
            instruction_bytes: 2,
            cycles: 2,
        },
        0xd1u8 => Opcode {
            name: "cmp",
            instruction: Instruction::Cmp,
            value: 0xd1,
            mode: AddressingMode::IndexY,
            instruction_bytes: 2,
            cycles: 5,
        },
        0xd2u8 => Opcode {
            name: "cmp",
            instruction: Instruction::Cmp,
            value: 0xd2,
            mode: AddressingMode::ZeroPageIndirect,
            instruction_bytes: 2,
            cycles: 5,
        },
        0xd3u8 => Opcode {
            name: "nopd3",
            instruction: Instruction::NopD3,
            value: 0xd3,
            mode: AddressingMode::Implied,
            instruction_bytes: 1,
            cycles: 1,
        },
        0xd4u8 => Opcode {
            name: "nopd4",
            instruction: Instruction::NopD4,
            value: 0xd4,
            mode: AddressingMode::ZeroPageX,
            instruction_bytes: 2,
            cycles: 4,
        },
        0xd5u8 => Opcode {
            name: "cmp",
            instruction: Instruction::Cmp,
            value: 0xd5,
            mode: AddressingMode::ZeroPageX,
            instruction_bytes: 2,
            cycles: 4,
        },
        0xd6u8 => Opcode {
            name: "dec",
            instruction: Instruction::Dec,
            value: 0xd6,
            mode: AddressingMode::ZeroPageX,
            instruction_bytes: 2,
            cycles: 6,
        },
        0xd7u8 => Opcode {
            name: "smb5",
            instruction: Instruction::Smb5,
            value: 0xd7,
            mode: AddressingMode::ZeroPage,
            instruction_bytes: 2,
            cycles: 5,
        },
        0xd8u8 => Opcode {
            name: "cld",
            instruction: Instruction::Cld,
            value: 0xd8,
            mode: AddressingMode::Implied,
            instruction_bytes: 1,
            cycles: 2,
        },
        0xd9u8 => Opcode {
            name: "cmp",
            instruction: Instruction::Cmp,
            value: 0xd9,
            mode: AddressingMode::AbsY,
            instruction_bytes: 3,
            cycles: 4,
        },
        0xdau8 => Opcode {
            name: "phx",
            instruction: Instruction::Phx,
            value: 0xda,
            mode: AddressingMode::Implied,
            instruction_bytes: 1,
            cycles: 3,
        },
        0xdbu8 => Opcode {
            name: "stp",
            instruction: Instruction::Stp,
            value: 0xdb,
            mode: AddressingMode::Implied,
            instruction_bytes: 1,
            cycles: 3,
        },
        0xdcu8 => Opcode {
            name: "nopdc",
            instruction: Instruction::NopDc,
            value: 0xdc,
            mode: AddressingMode::Absolute,
            instruction_bytes: 3,
            cycles: 4,
        },
        0xddu8 => Opcode {
            name: "cmp",
            instruction: Instruction::Cmp,
            value: 0xdd,
            mode: AddressingMode::AbsX,
            instruction_bytes: 3,
            cycles: 4,
        },
        0xdeu8 => Opcode {
            name: "dec",
            instruction: Instruction::Dec,
            value: 0xde,
            mode: AddressingMode::AbsX,
            instruction_bytes: 3,
            cycles: 7,
        },
        0xdfu8 => Opcode {
            name: "bbs5",
            instruction: Instruction::Bbs5,
            value: 0xdf,
            mode: AddressingMode::ZeroPageRel,
            instruction_bytes: 3,
            cycles: 5,
        },
        0xe0u8 => Opcode {
            name: "cpx",
            instruction: Instruction::Cpx,
            value: 0xe0,
            mode: AddressingMode::Immediate,
            instruction_bytes: 2,
            cycles: 2,
        },
        0xe1u8 => Opcode {
            name: "sbc",
            instruction: Instruction::Sbc,
            value: 0xe1,
            mode: AddressingMode::IndexX,
            instruction_bytes: 2,
            cycles: 6,
        },
        0xe2u8 => Opcode {
            name: "nope2",
            instruction: Instruction::Nope2,
            value: 0xe2,
            mode: AddressingMode::Nop2,
            instruction_bytes: 2,
            cycles: 2,
        },
        0xe3u8 => Opcode {
            name: "nope3",
            instruction: Instruction::NopE3,
            value: 0xe3,
            mode: AddressingMode::Implied,
            instruction_bytes: 1,
            cycles: 1,
        },
        0xe4u8 => Opcode {
            name: "cpx",
            instruction: Instruction::Cpx,
            value: 0xe4,
            mode: AddressingMode::ZeroPage,
            instruction_bytes: 2,
            cycles: 3,
        },
        0xe5u8 => Opcode {
            name: "sbc",
            instruction: Instruction::Sbc,
            value: 0xe5,
            mode: AddressingMode::ZeroPage,
            instruction_bytes: 2,
            cycles: 3,
        },
        0xe6u8 => Opcode {
            name: "inc",
            instruction: Instruction::Inc,
            value: 0xe6,
            mode: AddressingMode::ZeroPage,
            instruction_bytes: 2,
            cycles: 5,
        },
        0xe7u8 => Opcode {
            name: "smb6",
            instruction: Instruction::Smb6,
            value: 0xe7,
            mode: AddressingMode::ZeroPage,
            instruction_bytes: 2,
            cycles: 5,
        },
        0xe8u8 => Opcode {
            name: "inx",
            instruction: Instruction::Inx,
            value: 0xe8,
            mode: AddressingMode::Implied,
            instruction_bytes: 1,
            cycles: 2,
        },
        0xe9u8 => Opcode {
            name: "sbc",
            instruction: Instruction::Sbc,
            value: 0xe9,
            mode: AddressingMode::Immediate,
            instruction_bytes: 2,
            cycles: 2,
        },
        0xeau8 => Opcode {
            name: "nop",
            instruction: Instruction::Nop,
            value: 0xea,
            mode: AddressingMode::Implied,
            instruction_bytes: 1,
            cycles: 2,
        },
        0xebu8 => Opcode {
            name: "nopeb",
            instruction: Instruction::NopEB,
            value: 0xeb,
            mode: AddressingMode::Implied,
            instruction_bytes: 1,
            cycles: 1,
        },
        0xecu8 => Opcode {
            name: "cpx",
            instruction: Instruction::Cpx,
            value: 0xec,
            mode: AddressingMode::Absolute,
            instruction_bytes: 3,
            cycles: 4,
        },
        0xedu8 => Opcode {
            name: "sbc",
            instruction: Instruction::Sbc,
            value: 0xed,
            mode: AddressingMode::Absolute,
            instruction_bytes: 3,
            cycles: 4,
        },
        0xeeu8 => Opcode {
            name: "inc",
            instruction: Instruction::Inc,
            value: 0xee,
            mode: AddressingMode::Absolute,
            instruction_bytes: 3,
            cycles: 6,
        },
        0xefu8 => Opcode {
            name: "bbs6",
            instruction: Instruction::Bbs6,
            value: 0xef,
            mode: AddressingMode::ZeroPageRel,
            instruction_bytes: 3,
            cycles: 5,
        },
        0xf0u8 => Opcode {
            name: "beq",
            instruction: Instruction::Beq,
            value: 0xf0,
            mode: AddressingMode::Relative,
            instruction_bytes: 2,
            cycles: 2,
        },
        0xf1u8 => Opcode {
            name: "sbc",
            instruction: Instruction::Sbc,
            value: 0xf1,
            mode: AddressingMode::IndexY,
            instruction_bytes: 2,
            cycles: 5,
        },
        0xf2u8 => Opcode {
            name: "sbc",
            instruction: Instruction::Sbc,
            value: 0xf2,
            mode: AddressingMode::ZeroPageIndirect,
            instruction_bytes: 2,
            cycles: 5,
        },
        0xf3u8 => Opcode {
            name: "nopf3",
            instruction: Instruction::NopF3,
            value: 0xf3,
            mode: AddressingMode::Implied,
            instruction_bytes: 1,
            cycles: 1,
        },
        0xf4u8 => Opcode {
            name: "nopf4",
            instruction: Instruction::Nopf4,
            value: 0xf4,
            mode: AddressingMode::ZeroPageX,
            instruction_bytes: 2,
            cycles: 4,
        },
        0xf5u8 => Opcode {
            name: "sbc",
            instruction: Instruction::Sbc,
            value: 0xf5,
            mode: AddressingMode::ZeroPageX,
            instruction_bytes: 2,
            cycles: 4,
        },
        0xf6u8 => Opcode {
            name: "inc",
            instruction: Instruction::Inc,
            value: 0xf6,
            mode: AddressingMode::ZeroPageX,
            instruction_bytes: 2,
            cycles: 6,
        },
        0xf7u8 => Opcode {
            name: "smb7",
            instruction: Instruction::Smb7,
            value: 0xf7,
            mode: AddressingMode::ZeroPage,
            instruction_bytes: 2,
            cycles: 5,
        },
        0xf8u8 => Opcode {
            name: "sed",
            instruction: Instruction::Sed,
            value: 0xf8,
            mode: AddressingMode::Implied,
            instruction_bytes: 1,
            cycles: 2,
        },
        0xf9u8 => Opcode {
            name: "sbc",
            instruction: Instruction::Sbc,
            value: 0xf9,
            mode: AddressingMode::AbsY,
            instruction_bytes: 3,
            cycles: 4,
        },
        0xfau8 => Opcode {
            name: "plx",
            instruction: Instruction::Plx,
            value: 0xfa,
            mode: AddressingMode::Implied,
            instruction_bytes: 1,
            cycles: 4,
        },
        0xfbu8 => Opcode {
            name: "nopfb",
            instruction: Instruction::NopFB,
            value: 0xfb,
            mode: AddressingMode::Implied,
            instruction_bytes: 1,
            cycles: 1,
        },
        0xfcu8 => Opcode {
            name: "nopfc",
            instruction: Instruction::NopFc,
            value: 0xfc,
            mode: AddressingMode::Absolute,
            instruction_bytes: 3,
            cycles: 4,
        },
        0xfdu8 => Opcode {
            name: "sbc",
            instruction: Instruction::Sbc,
            value: 0xfd,
            mode: AddressingMode::AbsX,
            instruction_bytes: 3,
            cycles: 4,
        },
        0xfeu8 => Opcode {
            name: "inc",
            instruction: Instruction::Inc,
            value: 0xfe,
            mode: AddressingMode::AbsX,
            instruction_bytes: 3,
            cycles: 7,
        },
        0xffu8 => Opcode {
            name: "bbs7",
            instruction: Instruction::Bbs7,
            value: 0xff,
            mode: AddressingMode::ZeroPageRel,
            instruction_bytes: 3,
            cycles: 5,
        },
    };
    Some(op)
}

/// Every table entry carries its own opcode byte, and its length is one byte more than the
/// operand bytes its addressing mode reads.
pub proof fn lemma_opcode_table_consistent(instruction: u8)
    ensures
        opcode_table(instruction).value == instruction,
        opcode_table(instruction).instruction_bytes == 1 + operand_length(opcode_table(instruction).mode),
        1 <= opcode_table(instruction).cycles <= 8,
{
}

} // verus!
