use vstd::prelude::*;

verus! {

/// The reflected CRC-32 polynomial (IEEE 802.3).
pub const CRC32_POLYNOMIAL: u32 = 0xedb8_8320;

/// One shift of the CRC register: out goes the low bit, and where it was set the polynomial
/// is folded in.
pub open spec fn crc_shift(c: u32) -> u32 {
    if c & 1 == 1 {
        (c >> 1u32) ^ CRC32_POLYNOMIAL
    } else {
        c >> 1u32
    }
}

/// `n` shifts of the CRC register.
pub open spec fn crc_shifts(c: u32, n: nat) -> u32
    decreases n,
{
    if n == 0 {
        c
    } else {
        crc_shifts(crc_shift(c), (n - 1) as nat)
    }
}

/// The CRC register after taking in one byte.
pub open spec fn crc_byte(c: u32, b: u8) -> u32 {
    crc_shifts(c ^ (b as u32), 8)
}

/// The CRC register after taking in `data`, starting from register `c`.
pub open spec fn crc_register(c: u32, data: Seq<u8>) -> u32
    decreases data.len(),
{
    if data.len() == 0 {
        c
    } else {
        crc_byte(crc_register(c, data.drop_last()), data.last())
    }
}

/// The CRC-32 of `data`, continuing from the CRC `crc` of what came before it (0 to start).
pub open spec fn crc32_spec(crc: u32, data: Seq<u8>) -> u32 {
    !crc_register(!crc, data)
}

/// The CRC-32 (IEEE 802.3, as zlib computes it) of `buf`, continuing from `crc`.
pub fn crc32(crc: u32, buf: &[u8]) -> (r: u32)
    ensures
        r == crc32_spec(crc, buf@),
{
    let mut c: u32 = !crc;
    let mut i: usize = 0;
    while i < buf.len()
        invariant
            i <= buf@.len(),
            c == crc_register(!crc, buf@.subrange(0, i as int)),
        decreases buf@.len() - i,
    {
        let ghost before = c;
        c = c ^ (buf[i] as u32);
        let mut k: usize = 0;
        while k < 8
            invariant
                k <= 8,
                crc_shifts(c, (8 - k) as nat) == crc_byte(before, buf@[i as int]),
            decreases 8 - k,
        {
            if c & 1 == 1 {
                c = (c >> 1) ^ CRC32_POLYNOMIAL;
            } else {
                c = c >> 1;
            }
            k += 1;
        }
        assert(buf@.subrange(0, i + 1).drop_last() =~= buf@.subrange(0, i as int));
        i += 1;
    }
    assert(buf@.subrange(0, buf@.len() as int) =~= buf@);
    !c
}

} // verus!

verus! {

/// Taking in two runs of bytes is taking in the one after the other.
proof fn lemma_crc_register_concat(c: u32, a: Seq<u8>, b: Seq<u8>)
    ensures
        crc_register(crc_register(c, a), b) == crc_register(c, a + b),
    decreases b.len(),
{
    if b.len() == 0 {
        assert(a + b =~= a);
    } else {
        lemma_crc_register_concat(c, a, b.drop_last());
        assert((a + b).drop_last() =~= a + b.drop_last());
        assert((a + b).last() == b.last());
    }
}

/// The CRC of two pieces, the second continuing from the CRC of the first, is the CRC of
/// both together.
pub proof fn lemma_crc32_concat(crc: u32, a: Seq<u8>, b: Seq<u8>)
    ensures
        crc32_spec(crc32_spec(crc, a), b) == crc32_spec(crc, a + b),
{
    let r = crc_register(!crc, a);
    assert(!(!r) == r) by (bit_vector);
    lemma_crc_register_concat(!crc, a, b);
}

} // verus!
