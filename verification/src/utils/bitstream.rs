use vstd::prelude::*;

use crate::utils::bits::lemma_and_one;

verus! {

/// Bit `i` of a packed buffer, most significant bit of each byte first.
pub open spec fn packed_bit(buf: Seq<u8>, i: int) -> u8 {
    (buf[i / 8] >> ((7 - i % 8) as u8)) & 1u8
}

/// The bits `bits` packed most significant bit first, the last byte padded with zeros.
pub open spec fn is_packing_of(buf: Seq<u8>, bits: Seq<u8>) -> bool {
    &&& buf.len() == (bits.len() + 7) / 8
    &&& forall|i: int| 0 <= i < bits.len() ==> #[trigger] packed_bit(buf, i) == bits[i]
    &&& forall|i: int| bits.len() <= i < buf.len() * 8 ==> #[trigger] packed_bit(buf, i) == 0
}

/// The eight bits of a byte, most significant first.
pub open spec fn byte_bits(byte: u8) -> Seq<u8> {
    Seq::new(8, |i: int| (byte >> ((7 - i) as u8)) & 1u8)
}

/// The bits of a sequence of bytes, most significant bit of each byte first.
pub open spec fn bytes_bits(bytes: Seq<u8>) -> Seq<u8>
    decreases bytes.len(),
{
    if bytes.len() == 0 {
        Seq::empty()
    } else {
        bytes_bits(bytes.drop_last()) + byte_bits(bytes.last())
    }
}

/// A byte is its eight bits.
proof fn lemma_byte_from_bits(x: u8, y: u8)
    requires
        (x >> 7u8) & 1u8 == (y >> 7u8) & 1u8,
        (x >> 6u8) & 1u8 == (y >> 6u8) & 1u8,
        (x >> 5u8) & 1u8 == (y >> 5u8) & 1u8,
        (x >> 4u8) & 1u8 == (y >> 4u8) & 1u8,
        (x >> 3u8) & 1u8 == (y >> 3u8) & 1u8,
        (x >> 2u8) & 1u8 == (y >> 2u8) & 1u8,
        (x >> 1u8) & 1u8 == (y >> 1u8) & 1u8,
        (x >> 0u8) & 1u8 == (y >> 0u8) & 1u8,
    ensures
        x == y,
{
    assert(x == y) by (bit_vector)
        requires
        (x >> 7u8) & 1u8 == (y >> 7u8) & 1u8,
        (x >> 6u8) & 1u8 == (y >> 6u8) & 1u8,
        (x >> 5u8) & 1u8 == (y >> 5u8) & 1u8,
        (x >> 4u8) & 1u8 == (y >> 4u8) & 1u8,
        (x >> 3u8) & 1u8 == (y >> 3u8) & 1u8,
        (x >> 2u8) & 1u8 == (y >> 2u8) & 1u8,
        (x >> 1u8) & 1u8 == (y >> 1u8) & 1u8,
        (x >> 0u8) & 1u8 == (y >> 0u8) & 1u8,
    ;
}

/// Bit `m` of packed byte `ja` of `a` is bit `m` of packed byte `jb` of `b`.
spec fn bits_match(a: Seq<u8>, ja: int, b: Seq<u8>, jb: int, m: int) -> bool {
    packed_bit(a, 8 * ja + m) == packed_bit(b, 8 * jb + m)
}

/// Two packed bytes with the same eight bits are the same byte.
proof fn lemma_bytes_equal_by_bits(a: Seq<u8>, ja: int, b: Seq<u8>, jb: int)
    requires
        0 <= ja < a.len(),
        0 <= jb < b.len(),
        forall|m: int| 0 <= m < 8 ==> #[trigger] bits_match(a, ja, b, jb, m),
    ensures
        a[ja] == b[jb],
{
    assert(bits_match(a, ja, b, jb, 0));
    assert((8 * ja + 0) / 8 == ja && (8 * ja + 0) % 8 == 0);
    assert((8 * jb + 0) / 8 == jb && (8 * jb + 0) % 8 == 0);
    assert(bits_match(a, ja, b, jb, 1));
    assert((8 * ja + 1) / 8 == ja && (8 * ja + 1) % 8 == 1);
    assert((8 * jb + 1) / 8 == jb && (8 * jb + 1) % 8 == 1);
    assert(bits_match(a, ja, b, jb, 2));
    assert((8 * ja + 2) / 8 == ja && (8 * ja + 2) % 8 == 2);
    assert((8 * jb + 2) / 8 == jb && (8 * jb + 2) % 8 == 2);
    assert(bits_match(a, ja, b, jb, 3));
    assert((8 * ja + 3) / 8 == ja && (8 * ja + 3) % 8 == 3);
    assert((8 * jb + 3) / 8 == jb && (8 * jb + 3) % 8 == 3);
    assert(bits_match(a, ja, b, jb, 4));
    assert((8 * ja + 4) / 8 == ja && (8 * ja + 4) % 8 == 4);
    assert((8 * jb + 4) / 8 == jb && (8 * jb + 4) % 8 == 4);
    assert(bits_match(a, ja, b, jb, 5));
    assert((8 * ja + 5) / 8 == ja && (8 * ja + 5) % 8 == 5);
    assert((8 * jb + 5) / 8 == jb && (8 * jb + 5) % 8 == 5);
    assert(bits_match(a, ja, b, jb, 6));
    assert((8 * ja + 6) / 8 == ja && (8 * ja + 6) % 8 == 6);
    assert((8 * jb + 6) / 8 == jb && (8 * jb + 6) % 8 == 6);
    assert(bits_match(a, ja, b, jb, 7));
    assert((8 * ja + 7) / 8 == ja && (8 * ja + 7) % 8 == 7);
    assert((8 * jb + 7) / 8 == jb && (8 * jb + 7) % 8 == 7);
    lemma_byte_from_bits(a[ja], b[jb]);
}

/// Bytes are the packing of their own bits.
pub proof fn lemma_bytes_bits_packing(bytes: Seq<u8>)
    ensures
        bytes_bits(bytes).len() == 8 * bytes.len(),
        is_packing_of(bytes, bytes_bits(bytes)),
    decreases bytes.len(),
{
    if bytes.len() > 0 {
        let d = bytes.drop_last();
        lemma_bytes_bits_packing(d);
        assert forall|i: int| 0 <= i < bytes_bits(bytes).len() implies #[trigger] packed_bit(bytes, i) == bytes_bits(bytes)[i] by {
            if i < 8 * d.len() {
                assert(i / 8 < d.len());
                assert(bytes[i / 8] == d[i / 8]);
                assert(packed_bit(d, i) == bytes_bits(d)[i]);
            } else {
                let m = i - 8 * d.len();
                assert(i / 8 == d.len() && i % 8 == m);
                assert(bytes[i / 8] == bytes.last());
            }
        }
    }
}

/// Writing bits appends them: a written bit reads back as the low bit of what was written,
/// the earlier bits read as before, the count grows by one, and the packed bytes are
/// `(n + 8) / 8` with every padding bit after the new one clear.
pub proof fn lemma_write_bit_appends(before: Seq<u8>, bit: u8, packed: Seq<u8>)
    requires
        is_packing_of(packed, before.push(bit & 1)),
    ensures
        before.push(bit & 1).len() == before.len() + 1,
        before.push(bit & 1)[before.len() as int] == bit & 1,
        forall|i: int| 0 <= i < before.len() ==> before.push(bit & 1)[i] == before[i],
        packed.len() == (before.len() + 8) / 8,
        forall|i: int| before.len() + 1 <= i < packed.len() * 8 ==> #[trigger] packed_bit(packed, i) == 0,
{
}

/// Writing bytes is writing each byte in turn: the bits of `bytes` followed by a byte are
/// the bits of `bytes` followed by that byte's bits.
pub proof fn lemma_bytes_bits_push(bytes: Seq<u8>, b: u8)
    ensures
        bytes_bits(bytes.push(b)) == bytes_bits(bytes) + byte_bits(b),
{
    assert(bytes.push(b).drop_last() =~= bytes);
}

/// Bytes written to a stream that ends on a byte boundary are appended to its packed bytes
/// as they are.
pub proof fn lemma_write_bytes_aligned(before: Seq<u8>, p: Seq<u8>, bytes: Seq<u8>, packed: Seq<u8>)
    requires
        before.len() % 8 == 0,
        is_packing_of(p, before),
        is_packing_of(packed, before + bytes_bits(bytes)),
    ensures
        packed == p + bytes,
{
    lemma_bytes_bits_packing(bytes);
    let all = before + bytes_bits(bytes);
    assert(p.len() * 8 == before.len());
    assert(packed.len() == p.len() + bytes.len());
    assert forall|j: int| 0 <= j < packed.len() implies packed[j] == (p + bytes)[j] by {
        if j < p.len() {
            assert forall|m: int| 0 <= m < 8 implies #[trigger] bits_match(packed, j, p, j, m) by {
                assert(8 * j + m < before.len());
                assert(all[8 * j + m] == before[8 * j + m]);
            }
            lemma_bytes_equal_by_bits(packed, j, p, j);
        } else {
            let k = j - p.len();
            assert forall|m: int| 0 <= m < 8 implies #[trigger] bits_match(packed, j, bytes, k, m) by {
                assert(8 * j + m == before.len() + 8 * k + m);
                assert(all[8 * j + m] == bytes_bits(bytes)[8 * k + m]);
            }
            lemma_bytes_equal_by_bits(packed, j, bytes, k);
        }
    }
    assert(packed =~= p + bytes);
}

/// A growable string of bits, packed into bytes most significant bit first.
pub struct Bitstream {
    buf: Vec<u8>,
    bits: usize,
}

/// Setting a clear bit of a byte sets that bit only.
proof fn lemma_or_bit(b: u8, k: u8, x: u8, j: u8)
    requires
        k < 8,
        j < 8,
        x < 2,
        k == j ==> (b >> (7 - j) as u8) & 1u8 == 0u8,
    ensures
        ((b | (x << (7 - k) as u8)) >> (7 - j) as u8) & 1u8 == (if j == k { x } else { (b >> (7 - j) as u8) & 1u8 }),
{
    assert(((b | (x << (7 - k) as u8)) >> (7 - j) as u8) & 1u8 == (if j == k { x } else { (b >> (7 - j) as u8) & 1u8 })) by (bit_vector)
        requires
            k < 8,
            j < 8,
            x < 2,
            k == j ==> (b >> (7 - j) as u8) & 1u8 == 0u8,
    ;
}

/// Every bit of the zero byte is clear.
proof fn lemma_zero_bits(j: u8)
    requires
        j < 8,
    ensures
        (0u8 >> (7 - j) as u8) & 1u8 == 0u8,
{
    assert((0u8 >> (7 - j) as u8) & 1u8 == 0u8) by (bit_vector);
}

impl View for Bitstream {
    type V = Seq<u8>;

    closed spec fn view(&self) -> Seq<u8> {
        Seq::new(self.bits as nat, |i: int| packed_bit(self.buf@, i))
    }
}

impl Bitstream {
    /// The buffer holds exactly the bytes the bits need, and the padding bits are zero.
    pub closed spec fn wf(self) -> bool {
        &&& self.buf@.len() == (self.bits + 7) / 8
        &&& forall|i: int| self.bits <= i < self.buf@.len() * 8 ==> #[trigger] packed_bit(self.buf@, i) == 0
    }

    /// An empty bit string.
    pub fn new() -> (bs: Bitstream)
        ensures
            bs@ == Seq::<u8>::empty(),
            bs.wf(),
    {
        let bs = Bitstream { buf: Vec::new(), bits: 0 };
        assert(bs@ =~= Seq::<u8>::empty());
        bs
    }

    /// The packed bytes: the bits most significant first, the last byte padded with zeros.
    pub fn packed(&self) -> (r: &[u8])
        requires
            self.wf(),
        ensures
            is_packing_of(r@, self@),
    {
        self.buf.as_slice()
    }

    /// Appends the eight bits of a byte, most significant first.
    pub fn write_byte(&mut self, byte: u8)
        requires
            old(self).wf(),
            old(self)@.len() + 8 <= usize::MAX,
        ensures
            final(self)@ == old(self)@ + byte_bits(byte),
            final(self)@.len() == old(self)@.len() + 8,
            final(self).wf(),
    {
        let ghost start = self@;
        let mut x: u8 = 0;
        while x < 8
            invariant
                x <= 8,
                self@ == start + byte_bits(byte).take(x as int),
                self.wf(),
                start.len() + 8 <= usize::MAX,
            decreases 8 - x,
        {
            let bit = (byte >> (7 - x)) & 1;
            proof {
                lemma_and_one(byte >> (7 - x) as u8);
                lemma_and_one(bit);
            }
            self.write_bit(bit);
            assert(byte_bits(byte).take(x + 1) =~= byte_bits(byte).take(x as int).push(bit));
            assert(self@ =~= start + byte_bits(byte).take(x + 1));
            x += 1;
        }
        assert(byte_bits(byte).take(8) =~= byte_bits(byte));
    }

    /// Appends the bits of every byte, in order.
    pub fn write_bytes(&mut self, bytes: &[u8])
        requires
            old(self).wf(),
            old(self)@.len() + 8 * bytes@.len() <= usize::MAX,
        ensures
            final(self)@ == old(self)@ + bytes_bits(bytes@),
            final(self)@.len() == old(self)@.len() + 8 * bytes@.len(),
            final(self).wf(),
    {
        let ghost start = self@;
        let n = bytes.len();
        let mut i: usize = 0;
        while i < n
            invariant
                i <= n,
                n == bytes@.len(),
                self@ == start + bytes_bits(bytes@.take(i as int)),
                self@.len() == start.len() + 8 * i,
                start.len() + 8 * n <= usize::MAX,
                self.wf(),
            decreases n - i,
        {
            self.write_byte(bytes[i]);
            assert(bytes@.take(i + 1).drop_last() =~= bytes@.take(i as int));
            assert(self@ =~= start + bytes_bits(bytes@.take(i + 1)));
            i += 1;
        }
        assert(bytes@.take(n as int) =~= bytes@);
    }

    /// Appends one bit (the low bit of `bit`).
    pub fn write_bit(&mut self, bit: u8)
        requires
            old(self).wf(),
            old(self)@.len() < usize::MAX,
        ensures
            final(self)@ == old(self)@.push(bit & 1),
            final(self).wf(),
    {
        proof {
            lemma_and_one(bit);
        }
        let ghost old_buf = self.buf@;
        let ghost old_view = self@;
        if self.bits % 8 == 0 {
            self.buf.push(0);
            proof {
                assert(self.bits == old_buf.len() * 8);
                assert forall|i: int| self.bits <= i < self.buf@.len() * 8 implies #[trigger] packed_bit(self.buf@, i) == 0 by {
                    assert(i / 8 == old_buf.len());
                    assert(self.buf@[i / 8] == 0u8);
                    lemma_zero_bits((i % 8) as u8);
                }
                assert forall|i: int| 0 <= i < self.bits implies #[trigger] packed_bit(self.buf@, i) == packed_bit(old_buf, i) by {
                    assert(self.buf@[i / 8] == old_buf[i / 8]);
                }
            }
        }
        let ghost before = self.buf@;
        proof {
            assert(self.bits / 8 == before.len() - 1);
            assert(forall|i: int| self.bits <= i < before.len() * 8 ==> #[trigger] packed_bit(before, i) == 0);
            assert(forall|i: int| 0 <= i < self.bits ==> #[trigger] packed_bit(before, i) == packed_bit(old_buf, i));
        }
        let index = self.buf.len() - 1;
        let k: u8 = (self.bits % 8) as u8;
        let shift: u8 = 7 - k;
        let old_byte = self.buf[index];
        let new_byte = old_byte | ((bit & 1) << shift);
        self.buf.set(index, new_byte);
        proof {
            assert(self.bits == index * 8 + k);
            assert(packed_bit(before, self.bits as int) == 0);
            assert((old_byte >> (7 - k) as u8) & 1u8 == 0u8);
            assert forall|i: int| 0 <= i < before.len() * 8 implies #[trigger] packed_bit(self.buf@, i) == (if i == self.bits { bit & 1 } else { packed_bit(before, i) }) by {
                if i / 8 == index {
                    let j = (i % 8) as u8;
                    assert(i == index * 8 + j);
                    lemma_or_bit(old_byte, k, bit & 1, j);
                } else {
                    assert(self.buf@[i / 8] == before[i / 8]);
                }
            }
        }
        self.bits = self.bits + 1;
        proof {
            assert forall|i: int| 0 <= i < old_view.len() implies self@[i] == old_view[i] by {
                assert(packed_bit(before, i) == packed_bit(old_buf, i));
            }
            assert(self@ =~= old_view.push(bit & 1));
        }
    }

    /// Bit `bit` of the string, or 0 past its end.
    pub fn read_bit(&self, bit: usize) -> (r: u8)
        requires
            self.wf(),
        ensures
            r == (if bit < self@.len() { self@[bit as int] } else { 0 }),
            r < 2,
    {
        if bit >= self.bits {
            return 0;
        }
        let byte = self.buf[bit / 8];
        let shift = (7 - (bit % 8)) as u8;
        let r = (byte >> shift) & 1;
        proof {
            lemma_and_one(byte >> shift);
        }
        r
    }

    /// The number of bits written.
    pub fn num_bits(&self) -> (n: usize)
        ensures
            n == self@.len(),
    {
        self.bits
    }
}

} // verus!
