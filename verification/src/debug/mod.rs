use vstd::prelude::*;
use vstd::string::StringExecFns;

use crate::targets::ExecutionState;
use crate::utils::text::{ascii_chars, ascii_string, hex_padded, is_ascii_bytes, lemma_hex_padded_ascii, push_bytes, push_hex};

verus! {

/// One disassembled instruction: where it is, its text and its bytes.
pub struct InstructionInfo {
    pub address: usize,
    pub instruction: String,
    pub opcode: Vec<u8>,
}

/// `n` ASCII spaces.
pub open spec fn spaces_text(n: nat) -> Seq<u8> {
    Seq::new(n, |i: int| 32u8)
}

/// The bytes in two-digit hexadecimal, separated by spaces.
pub open spec fn hex_bytes_joined(b: Seq<u8>) -> Seq<u8>
    decreases b.len(),
{
    if b.len() == 0 {
        Seq::empty()
    } else if b.len() == 1 {
        hex_padded(b[0] as nat, 2)
    } else {
        hex_bytes_joined(b.drop_last()) + seq![32u8] + hex_padded(b.last() as nat, 2)
    }
}

/// `s` padded with spaces on the right to `width`.
pub open spec fn pad_right(s: Seq<u8>, width: nat) -> Seq<u8> {
    if s.len() >= width {
        s
    } else {
        s + spaces_text((width - s.len()) as nat)
    }
}

/// The line a debugger shows for an instruction: the address in eight hex digits, a colon,
/// the bytes in hex left-aligned in 16 columns, and the instruction.
pub open spec fn instruction_line(address: usize, opcode: Seq<u8>, instruction: Seq<char>) -> Seq<char> {
    ascii_chars(hex_padded(address as nat, 8) + seq![58u8, 32u8] + pad_right(hex_bytes_joined(opcode), 16))
        + instruction
}

proof fn lemma_ascii_concat(a: Seq<u8>, b: Seq<u8>)
    requires
        is_ascii_bytes(a),
        is_ascii_bytes(b),
    ensures
        is_ascii_bytes(a + b),
{
    assert forall|i: int| 0 <= i < (a + b).len() implies #[trigger] (a + b)[i] < 128 by {
        if i < a.len() {
            assert((a + b)[i] == a[i]);
        } else {
            assert((a + b)[i] == b[i - a.len()]);
        }
    }
}

proof fn lemma_joined_ascii(b: Seq<u8>)
    ensures
        is_ascii_bytes(hex_bytes_joined(b)),
    decreases b.len(),
{
    if b.len() == 1 {
        lemma_hex_padded_ascii(b[0] as nat, 2);
    } else if b.len() > 1 {
        lemma_joined_ascii(b.drop_last());
        lemma_hex_padded_ascii(b.last() as nat, 2);
        lemma_ascii_concat(hex_bytes_joined(b.drop_last()), seq![32u8]);
        lemma_ascii_concat(hex_bytes_joined(b.drop_last()) + seq![32u8], hex_padded(b.last() as nat, 2));
    }
}

/// The bytes in two-digit hexadecimal, separated by spaces.
fn join_hex_bytes(bytes: &[u8]) -> (r: Vec<u8>)
    ensures
        r@ == hex_bytes_joined(bytes@),
{
    let mut joined: Vec<u8> = Vec::new();
    let mut i: usize = 0;
    while i < bytes.len()
        invariant
            i <= bytes@.len(),
            joined@ == hex_bytes_joined(bytes@.take(i as int)),
        decreases bytes@.len() - i,
    {
        if i > 0 {
            joined.push(32u8);
        }
        push_hex(&mut joined, bytes[i] as u64, 2);
        proof {
            let t = bytes@.take(i + 1);
            assert(t.drop_last() =~= bytes@.take(i as int));
        }
        i += 1;
    }
    assert(bytes@.take(i as int) =~= bytes@);
    joined
}

/// A run of memory as a debugger shows it: each byte in two-digit hexadecimal, separated by
/// spaces.
pub fn memory_text(bytes: &[u8]) -> (r: String)
    ensures
        r@ == ascii_chars(hex_bytes_joined(bytes@)),
{
    let joined = join_hex_bytes(bytes);
    proof {
        lemma_joined_ascii(bytes@);
    }
    ascii_string(joined)
}

/// An address as a debugger shows it: eight hexadecimal digits.
pub fn address_text(address: usize) -> (r: String)
    ensures
        r@ == ascii_chars(hex_padded(address as nat, 8)),
{
    let mut b: Vec<u8> = Vec::new();
    push_hex(&mut b, address as u64, 8);
    proof {
        lemma_hex_padded_ascii(address as nat, 8);
    }
    ascii_string(b)
}

impl InstructionInfo {
    /// The line a debugger shows for the instruction.
    pub fn display(&self) -> (r: String)
        ensures
            r@ == instruction_line(self.address, self.opcode@, self.instruction@),
    {
        let mut head: Vec<u8> = Vec::new();
        push_hex(&mut head, self.address as u64, 8);
        push_bytes(&mut head, &[58u8, 32u8]);
        let ghost prefix = head@;
        let mut joined = join_hex_bytes(self.opcode.as_slice());
        let mut k: usize = joined.len();
        let ghost jl = joined@;
        while k < 16
            invariant
                jl.len() <= k,
                k <= 16 || k == jl.len(),
                joined@ == jl + spaces_text((k - jl.len()) as nat),
            decreases 16 - k,
        {
            joined.push(32u8);
            assert(joined@ =~= jl + spaces_text((k + 1 - jl.len()) as nat));
            k += 1;
        }
        assert(joined@ =~= pad_right(jl, 16));
        let mut j: usize = 0;
        while j < joined.len()
            invariant
                j <= joined@.len(),
                head@ == prefix + joined@.take(j as int),
            decreases joined@.len() - j,
        {
            head.push(joined[j]);
            assert(joined@.take(j + 1) =~= joined@.take(j as int).push(joined@[j as int]));
            j += 1;
        }
        assert(joined@.take(j as int) =~= joined@);
        proof {
            lemma_hex_padded_ascii(self.address as nat, 8);
            lemma_joined_ascii(self.opcode@);
            assert(is_ascii_bytes(spaces_text((16 - jl.len()) as nat)));
            assert(is_ascii_bytes(pad_right(jl, 16)));
            assert(is_ascii_bytes(seq![58u8, 32u8]));
            lemma_ascii_concat(hex_padded(self.address as nat, 8), seq![58u8, 32u8]);
            lemma_ascii_concat(hex_padded(self.address as nat, 8) + seq![58u8, 32u8], pad_right(jl, 16));
        }
        let mut text = ascii_string(head);
        text.append(self.instruction.as_str());
        text
    }
}

/// The width of a register.
#[derive(Debug, Copy, Clone, PartialEq, Eq, Structural)]
pub enum RegisterSize {
    Size1,
    Size8,
    Size16,
    Size32,
    Size64,
}

/// A register as a debugger shows it.
pub struct Register {
    pub name: String,
    pub value: usize,
    pub size: RegisterSize,
}

/// The value of a register as a debugger shows it: a single bit as 0 or 1, else `0x` and
/// the value in hexadecimal padded to 1, 2, 4 or 8 digits.
pub open spec fn register_value_text(value: usize, size: RegisterSize) -> Seq<u8> {
    match size {
        RegisterSize::Size1 => if value == 0 { seq![48u8] } else { seq![49u8] },
        RegisterSize::Size8 => seq![48u8, 120u8] + hex_padded(value as nat, 1),
        RegisterSize::Size16 => seq![48u8, 120u8] + hex_padded(value as nat, 2),
        RegisterSize::Size32 => seq![48u8, 120u8] + hex_padded(value as nat, 4),
        RegisterSize::Size64 => seq![48u8, 120u8] + hex_padded(value as nat, 8),
    }
}

impl Register {
    /// The register as a debugger shows it: its name, a colon, and its value.
    pub fn display(&self) -> (r: String)
        ensures
            r@ == self.name@ + ascii_chars(seq![58u8, 32u8] + register_value_text(self.value, self.size)),
    {
        let mut b: Vec<u8> = Vec::new();
        push_bytes(&mut b, &[58u8, 32u8]);
        let width: usize = match self.size {
            RegisterSize::Size1 => 0,
            RegisterSize::Size8 => 1,
            RegisterSize::Size16 => 2,
            RegisterSize::Size32 => 4,
            RegisterSize::Size64 => 8,
        };
        match self.size {
            RegisterSize::Size1 => {
                if self.value == 0 {
                    b.push(48u8);
                } else {
                    b.push(49u8);
                }
            },
            _ => {
                push_bytes(&mut b, &[48u8, 120u8]);
                push_hex(&mut b, self.value as u64, width);
            },
        }
        proof {
            lemma_hex_padded_ascii(self.value as nat, width as nat);
            assert(b@ =~= seq![58u8, 32u8] + register_value_text(self.value, self.size));
            assert(is_ascii_bytes(b@));
        }
        let mut text = self.name.clone();
        text.append(ascii_string(b).as_str());
        text
    }
}

/// What a debugger shows of a processor: its registers, its flags, the program counter and
/// whether it runs.
pub struct State {
    pub registers: Vec<Register>,
    pub flags: Vec<(String, bool)>,
    pub pc: Register,
    pub execution_state: ExecutionState,
}

} // verus!
