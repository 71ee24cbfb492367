use vstd::prelude::*;

verus! {

/// `v` with its low `n` bits shifted out onto `r`, last bit first.
pub open spec fn reverse_steps(v: nat, r: nat, n: nat) -> nat
    decreases n,
{
    if n == 0 {
        r
    } else {
        reverse_steps(v / 2, r * 2 + v % 2, (n - 1) as nat)
    }
}

/// The byte with its bit order reversed (bit 0 becomes bit 7).
pub open spec fn reverse8(b: u8) -> u8 {
    reverse_steps(b as nat, 0, 8) as u8
}

/// A byte of the character generator ROM as the video reads it: bit-reversed, inverted
/// and shifted right by one as the ROM needs.
pub open spec fn char_transform(s: u8, reverse_bits: bool, invert_bits: bool, enhanced: bool) -> u8 {
    let a = if reverse_bits { reverse8(s) } else { s };
    let b = if invert_bits { (255 - a) as u8 } else { a };
    if enhanced { b / 2 } else { b }
}

/// The bytes the primary character set is made from: on an enhanced ROM the first 64
/// characters, then the 64 from character 128 on, then everything from character 128.
pub open spec fn primary_source(data: Seq<u8>, enhanced: bool) -> Seq<u8> {
    if enhanced {
        data.subrange(0, 0x200) + data.subrange(0x400, 0x600) + data.subrange(0x400, data.len() as int)
    } else {
        data
    }
}

/// A character set made from `src`; on a ROM that is not enhanced the first 64 characters are
/// inverted, as newer ROMs store them.
pub open spec fn charset(src: Seq<u8>, reverse_bits: bool, invert_bits: bool, enhanced: bool) -> Seq<u8> {
    Seq::new(src.len(), |i: int| {
        let t = char_transform(src[i], reverse_bits, invert_bits, enhanced);
        if !enhanced && i < 0x200 { (255 - t) as u8 } else { t }
    })
}

/// The character generator: the primary and the alternate character sets, eight bytes
/// (rows) per character.
pub struct CharacterROM {
    pub data_primary: Vec<u8>,
    pub data_alternate: Vec<u8>,
}

/// The byte with its bit order reversed.
pub fn reverse_bits(b: u8) -> (r: u8)
    ensures
        r == reverse8(b),
{
    let mut v: u8 = b;
    let mut r: u16 = 0;
    let mut n: u8 = 0;
    proof {
        reveal_with_fuel(crate::utils::bits::pow2, 9);
    }
    while n < 8
        invariant
            n <= 8,
            r < crate::utils::bits::pow2(n as nat),
            reverse_steps(v as nat, r as nat, (8 - n) as nat) == reverse_steps(b as nat, 0, 8),
            crate::utils::bits::pow2(8) == 256,
        decreases 8 - n,
    {
        proof {
            reveal_with_fuel(crate::utils::bits::pow2, 9);
            assert(crate::utils::bits::pow2((n + 1) as nat) == 2 * crate::utils::bits::pow2(n as nat));
            assert(crate::utils::bits::pow2(n as nat) <= 128) by {
                if n == 0 {} else if n == 1 {} else if n == 2 {} else if n == 3 {} else if n == 4 {} else if n == 5 {} else if n == 6 {} else {}
            }
        }
        r = r * 2 + (v % 2) as u16;
        v = v / 2;
        n += 1;
    }
    r as u8
}

/// A byte as the video reads it.
fn transform(s: u8, reverse: bool, invert: bool, enhanced: bool) -> (r: u8)
    ensures
        r == char_transform(s, reverse, invert, enhanced),
{
    let a = if reverse { reverse_bits(s) } else { s };
    let b = if invert { 255 - a } else { a };
    if enhanced { b / 2 } else { b }
}

/// The character set made from `src`.
fn make_charset(src: &[u8], reverse: bool, invert: bool, enhanced: bool) -> (r: Vec<u8>)
    ensures
        r@ == charset(src@, reverse, invert, enhanced),
{
    let mut out: Vec<u8> = Vec::new();
    let mut i: usize = 0;
    while i < src.len()
        invariant
            i <= src@.len(),
            out@ == charset(src@, reverse, invert, enhanced).take(i as int),
        decreases src@.len() - i,
    {
        let t = transform(src[i], reverse, invert, enhanced);
        out.push(if !enhanced && i < 0x200 { 255 - t } else { t });
        assert(out@ =~= charset(src@, reverse, invert, enhanced).take(i + 1));
        i += 1;
    }
    assert(charset(src@, reverse, invert, enhanced).take(i as int) =~= charset(src@, reverse, invert, enhanced));
    out
}

impl CharacterROM {
    /// The character sets of a character generator ROM image, with its bits reversed,
    /// inverted and shifted as that ROM needs (`enhanced`: an enhanced IIe ROM, whose
    /// primary set skips the MouseText characters).
    pub fn new(data: &[u8], reverse_bits: bool, invert_bits: bool, enhanced: bool) -> (c: CharacterROM)
        requires
            enhanced ==> data@.len() >= 0x600,
            !enhanced ==> data@.len() >= 0x200,
        ensures
            c.data_primary@ == charset(primary_source(data@, enhanced), reverse_bits, invert_bits, enhanced),
            c.data_alternate@ == charset(data@, reverse_bits, invert_bits, enhanced),
    {
        let data_primary = if enhanced {
            let mut src: Vec<u8> = Vec::new();
            let a = vstd::slice::slice_subrange(data, 0, 0x200);
            let b = vstd::slice::slice_subrange(data, 0x400, 0x600);
            let c = vstd::slice::slice_subrange(data, 0x400, data.len());
            crate::utils::text::push_bytes(&mut src, a);
            crate::utils::text::push_bytes(&mut src, b);
            crate::utils::text::push_bytes(&mut src, c);
            make_charset(src.as_slice(), reverse_bits, invert_bits, enhanced)
        } else {
            make_charset(data, reverse_bits, invert_bits, enhanced)
        };
        let data_alternate = make_charset(data, reverse_bits, invert_bits, enhanced);
        CharacterROM { data_primary, data_alternate }
    }

    /// The eight row bytes of character `code` from the alternate or the primary set.
    pub fn get_character(&self, code: u8, alternate: bool) -> (r: &[u8])
        requires
            alternate ==> code as int * 8 + 8 <= self.data_alternate@.len(),
            !alternate ==> code as int * 8 + 8 <= self.data_primary@.len(),
        ensures
            alternate ==> r@ == self.data_alternate@.subrange(code as int * 8, code as int * 8 + 8),
            !alternate ==> r@ == self.data_primary@.subrange(code as int * 8, code as int * 8 + 8),
    {
        let start = (code as usize) * 8;
        if alternate {
            vstd::slice::slice_subrange(self.data_alternate.as_slice(), start, start + 8)
        } else {
            vstd::slice::slice_subrange(self.data_primary.as_slice(), start, start + 8)
        }
    }
}

} // verus!

verus! {

/// A row of a glyph as text: its eight bits, most significant first, '*' for a set bit and
/// a space for a clear one.
pub open spec fn glyph_row_chars(b: u8) -> Seq<char> {
    Seq::new(8, |i: int| if crate::utils::bits::bit(b, (7 - i) as nat) { '*' } else { ' ' })
}

/// A row of a glyph as text, its bits reversed first where `reverse`.
pub fn glyph_row_text(b: u8, reverse: bool) -> (r: String)
    ensures
        r@ == glyph_row_chars(if reverse { reverse8(b) } else { b }),
{
    let v = if reverse { reverse_bits(b) } else { b };
    let mut out: Vec<u8> = Vec::new();
    let mut i: usize = 0;
    while i < 8
        invariant
            i <= 8,
            out@.len() == i,
            forall|k: int| 0 <= k < i ==> out@[k] == (if crate::utils::bits::bit(v, (7 - k) as nat) { 42u8 } else { 32u8 }),
        decreases 8 - i,
    {
        let set = crate::utils::bits::get_bit(v, (7 - i) as u32);
        out.push(if set { 42u8 } else { 32u8 });
        i += 1;
    }
    proof {
        assert(crate::utils::text::is_ascii_bytes(out@));
        assert(crate::utils::text::ascii_chars(out@) =~= glyph_row_chars(v));
    }
    crate::utils::text::ascii_string(out)
}

} // verus!
