use vstd::prelude::*;

use crate::errors::Error;
use crate::utils::bits::lemma_and_one;
use crate::utils::bitstream::{byte_bits, bytes_bits, Bitstream};

pub mod dsk;
pub mod crc;
pub mod woz;

verus! {

/// One sector of a disk image: its number and its 256 bytes.
pub struct SectorData {
    pub sector: usize,
    pub data: Vec<u8>,
}

/// The disk bytes of the 6-and-2 encoding: a 6-bit value selects one.
pub const LOOKUP_TABLE_62: [u8; 64] = [
    0x96, 0x97, 0x9a, 0x9b, 0x9d, 0x9e, 0x9f, 0xa6, 0xa7, 0xab, 0xac, 0xad, 0xae, 0xaf, 0xb2, 0xb3,
    0xb4, 0xb5, 0xb6, 0xb7, 0xb9, 0xba, 0xbb, 0xbc, 0xbd, 0xbe, 0xbf, 0xcb, 0xcd, 0xce, 0xcf, 0xd3,
    0xd6, 0xd7, 0xd9, 0xda, 0xdb, 0xdc, 0xdd, 0xde, 0xdf, 0xe5, 0xe6, 0xe7, 0xe9, 0xea, 0xeb, 0xec,
    0xed, 0xee, 0xef, 0xf2, 0xf3, 0xf4, 0xf5, 0xf6, 0xf7, 0xf9, 0xfa, 0xfb, 0xfc, 0xfd, 0xfe, 0xff,
];

/// The two low bits of a byte, swapped.
pub open spec fn swap2(b: u8) -> u8 {
    ((b / 2) % 2 + (b % 2) * 2) as u8
}

/// The auxiliary 6-bit value `i` (0..86) of the 6-and-2 encoding: the swapped low bit pairs
/// of bytes `i`, `i + 86` and `i + 172`, in bits 0-1, 2-3 and 4-5.
pub open spec fn twos_value(data: Seq<u8>, i: int) -> u8 {
    (swap2(data[i]) + swap2(data[i + 86]) * 4 + (if i + 172 < 256 { swap2(data[i + 172]) * 16 } else { 0 })) as u8
}

/// The 342 six-bit values of a sector: 86 auxiliary values, then the high six bits of each byte.
pub open spec fn six_bit_values(data: Seq<u8>) -> Seq<u8> {
    Seq::new(86, |i: int| twos_value(data, i)) + Seq::new(256, |j: int| (data[j] / 4) as u8)
}

/// The 6-and-2 encoding of a 256-byte sector: each six-bit value XORed with the one before
/// it (the first with zero) and looked up in the table, and the checksum, the table entry of
/// the last value.
pub open spec fn encode_62_spec(data: Seq<u8>) -> (Seq<u8>, u8) {
    let v = six_bit_values(data);
    (
        Seq::new(342, |k: int| LOOKUP_TABLE_62@[(v[k] ^ (if k == 0 { 0u8 } else { v[k - 1] })) as int]),
        LOOKUP_TABLE_62@[v[341] as int],
    )
}

proof fn lemma_swap2(b: u8)
    ensures
        ((b >> 1u8) & 1u8) | ((b & 1u8) << 1u8) == swap2(b),
        swap2(b) < 4,
{
    assert(((b >> 1u8) & 1u8) | ((b & 1u8) << 1u8) == ((b / 2) % 2 + (b % 2) * 2) as u8) by (bit_vector);
}

proof fn lemma_xor_six_bits(a: u8, b: u8)
    requires
        a < 64,
        b < 64,
    ensures
        a ^ b < 64,
{
    assert(a ^ b < 64) by (bit_vector)
        requires
            a < 64,
            b < 64,
    ;
}

/// The auxiliary value `idx` of the 6-and-2 encoding.
fn twos_at(data: &[u8; 256], idx: usize) -> (r: u8)
    requires
        idx < 86,
    ensures
        r == twos_value(data@, idx as int),
        r < 64,
{
    let a = data[idx];
    let b = data[idx + 86];
    proof {
        lemma_swap2(a);
        lemma_swap2(b);
    }
    let sa = ((a >> 1) & 1) | ((a & 1) << 1);
    let sb = ((b >> 1) & 1) | ((b & 1) << 1);
    if idx + 172 < 256 {
        let c = data[idx + 172];
        proof {
            lemma_swap2(c);
        }
        let sc = ((c >> 1) & 1) | ((c & 1) << 1);
        let r = sa | (sb << 2) | (sc << 4);
        assert(r == sa + sb * 4 + sc * 16 && r < 64) by (bit_vector)
            requires
                sa < 4,
                sb < 4,
                sc < 4,
                r == sa | (sb << 2u8) | (sc << 4u8),
        ;
        r
    } else {
        let r = sa | (sb << 2);
        assert(r == sa + sb * 4 && r < 64) by (bit_vector)
            requires
                sa < 4,
                sb < 4,
                r == sa | (sb << 2u8),
        ;
        r
    }
}

/// The 6-bit value that disk byte `n` stands for: its index in the 6-and-2 table (64 for a
/// byte that is not in the table).
pub open spec fn gcr62_value(n: u8) -> u8 {
    if exists|i: int| 0 <= i < 64 && LOOKUP_TABLE_62@[i] == n {
        (choose|i: int| 0 <= i < 64 && LOOKUP_TABLE_62@[i] == n) as u8
    } else {
        64
    }
}

/// The XOR of the first `n` values of `raw`, starting from zero.
pub open spec fn running_xor(raw: Seq<u8>, n: nat) -> u8
    decreases n,
{
    if n == 0 {
        0
    } else {
        running_xor(raw, (n - 1) as nat) ^ raw[n - 1]
    }
}

/// Decodes the 342 data bytes of a 6-and-2 encoded sector: each disk byte goes back to its
/// 6-bit value through the table, a running XOR from zero gives the stored values; byte `j`
/// is value `86 + j` (its high six bits) above the swapped bit pair `j / 86` of value
/// `j % 86`.
pub open spec fn decode_62_spec(nibbles: Seq<u8>) -> Seq<u8> {
    let raw = Seq::new(342, |k: int| gcr62_value(nibbles[k]));
    Seq::new(256, |j: int| {
        let high = running_xor(raw, (86 + j + 1) as nat);
        let aux = running_xor(raw, (j % 86 + 1) as nat);
        let shift: int = if j / 86 == 0 { 1 } else if j / 86 == 1 { 4 } else { 16 };
        (high * 4 + swap2(((aux as int / shift) % 4) as u8)) as u8
    })
}

proof fn lemma_table_increasing(i: int, j: int)
    requires
        0 <= i < j < 64,
    ensures
        LOOKUP_TABLE_62@[i] < LOOKUP_TABLE_62@[j],
    decreases j - i,
{
    assert(forall|k: int| 0 <= k < 63 ==> #[trigger] LOOKUP_TABLE_62@[k] < LOOKUP_TABLE_62@[k + 1]);
    if j > i + 1 {
        lemma_table_increasing(i, j - 1);
        assert(LOOKUP_TABLE_62@[j - 1] < LOOKUP_TABLE_62@[j]);
    }
}

/// The table's entries are distinct, so looking a table byte up gives back its index.
proof fn lemma_table_inverse(i: int)
    requires
        0 <= i < 64,
    ensures
        gcr62_value(LOOKUP_TABLE_62@[i]) == i,
{
    let n = LOOKUP_TABLE_62@[i];
    assert(exists|x: int| 0 <= x < 64 && LOOKUP_TABLE_62@[x] == n);
    let c = choose|x: int| 0 <= x < 64 && LOOKUP_TABLE_62@[x] == n;
    if c < i {
        lemma_table_increasing(c, i);
    } else if i < c {
        lemma_table_increasing(i, c);
    }
}

proof fn lemma_xor_cancel(a: u8, b: u8)
    ensures
        a ^ (b ^ a) == b,
{
    assert(a ^ (b ^ a) == b) by (bit_vector);
}

proof fn lemma_swap2_twice(x: u8)
    ensures
        swap2(swap2(x)) == x % 4,
{
    assert(swap2(swap2(x)) == x % 4) by (bit_vector);
}

proof fn lemma_six_bit_values_small(data: Seq<u8>, k: int)
    requires
        data.len() == 256,
        0 <= k < 342,
    ensures
        six_bit_values(data)[k] < 64,
{
    if k < 86 {
        lemma_swap2(data[k]);
        lemma_swap2(data[k + 86]);
        if k + 172 < 256 {
            lemma_swap2(data[k + 172]);
        }
    }
}

/// Decoding a 6-and-2 encoded sector gives back its 256 bytes, and the checksum is the table
/// entry of the last running value.
#[verifier::spinoff_prover]
pub proof fn lemma_encode_62_decodes(data: Seq<u8>)
    requires
        data.len() == 256,
    ensures
        encode_62_spec(data).0.len() == 342,
        decode_62_spec(encode_62_spec(data).0) == data,
        encode_62_spec(data).1 == LOOKUP_TABLE_62@[running_xor(
            Seq::new(342, |k: int| gcr62_value(encode_62_spec(data).0[k])),
            342,
        ) as int],
{
    let v = six_bit_values(data);
    let nib = encode_62_spec(data).0;
    let raw = Seq::new(342, |k: int| gcr62_value(nib[k]));
    assert forall|k: int| 0 <= k < 342 implies #[trigger] raw[k] == v[k] ^ (if k == 0 { 0u8 } else { v[k - 1] }) by {
        lemma_six_bit_values_small(data, k);
        let p = if k == 0 { 0u8 } else { v[k - 1] };
        if k > 0 {
            lemma_six_bit_values_small(data, k - 1);
        }
        lemma_xor_six_bits(v[k], p);
        lemma_table_inverse((v[k] ^ p) as int);
    }
    assert forall|n: nat| 1 <= n <= 342 implies #[trigger] running_xor(raw, n) == v[n - 1] by {
        lemma_running_xor_values(data, raw, n);
    }
    assert forall|j: int| 0 <= j < 256 implies #[trigger] decode_62_spec(nib)[j] == data[j] by {
        let high = running_xor(raw, (86 + j + 1) as nat);
        let i = j % 86;
        let aux = running_xor(raw, (i + 1) as nat);
        assert(high == data[j] / 4);
        assert(aux == twos_value(data, i));
        lemma_swap2(data[i]);
        lemma_swap2(data[i + 86]);
        if i + 172 < 256 {
            lemma_swap2(data[i + 172]);
        }
        let shift: int = if j / 86 == 0 { 1 } else if j / 86 == 1 { 4 } else { 16 };
        assert((aux as int / shift) % 4 == swap2(data[j])) by {
            if j / 86 == 0 {
                assert(j == i);
            } else if j / 86 == 1 {
                assert(j == i + 86);
            } else {
                assert(j == i + 172);
            }
        }
        lemma_swap2_twice(data[j]);
        assert(data[j] == (data[j] / 4) * 4 + data[j] % 4);
    }
    assert(decode_62_spec(nib) =~= data);
}

proof fn lemma_running_xor_values(data: Seq<u8>, raw: Seq<u8>, n: nat)
    requires
        data.len() == 256,
        raw.len() == 342,
        1 <= n <= 342,
        forall|k: int| 0 <= k < 342 ==> #[trigger] raw[k] == six_bit_values(data)[k] ^ (if k == 0 { 0u8 } else { six_bit_values(data)[k - 1] }),
    ensures
        running_xor(raw, n) == six_bit_values(data)[n - 1],
    decreases n,
{
    let v = six_bit_values(data);
    assert(raw[n - 1] == v[n - 1] ^ (if n - 1 == 0 { 0u8 } else { v[n - 2] }));
    if n == 1 {
        assert(running_xor(raw, 0) == 0);
        lemma_xor_cancel(0, v[0]);
    } else {
        lemma_running_xor_values(data, raw, (n - 1) as nat);
        lemma_xor_cancel(v[n - 2], v[n - 1]);
    }
}

/// 6-and-2 encodes a 256-byte sector into 342 disk bytes and a checksum byte.
fn encode_62(data: &[u8; 256]) -> (r: (Vec<u8>, u8))
    ensures
        r.0@ == encode_62_spec(data@).0,
        r.1 == encode_62_spec(data@).1,
{
    let ghost v = six_bit_values(data@);
    let mut buf: Vec<u8> = Vec::new();
    let mut previous_byte: u8 = 0;
    let mut idx: usize = 0;
    while idx < 86
        invariant
            idx <= 86,
            v == six_bit_values(data@),
            buf@.len() == idx,
            previous_byte < 64,
            previous_byte == (if idx == 0 { 0u8 } else { v[idx - 1] }),
            forall|k: int| 0 <= k < idx ==> buf@[k] == #[trigger] encode_62_spec(data@).0[k],
        decreases 86 - idx,
    {
        let byte = twos_at(data, idx);
        assert(v[idx as int] == byte);
        proof {
            lemma_xor_six_bits(byte, previous_byte);
        }
        buf.push(LOOKUP_TABLE_62[(byte ^ previous_byte) as usize]);
        previous_byte = byte;
        idx += 1;
    }
    let mut j: usize = 0;
    while j < 256
        invariant
            j <= 256,
            v == six_bit_values(data@),
            buf@.len() == 86 + j,
            previous_byte < 64,
            previous_byte == v[85 + j],
            forall|k: int| 0 <= k < 86 + j ==> buf@[k] == #[trigger] encode_62_spec(data@).0[k],
        decreases 256 - j,
    {
        let byte = data[j];
        let b = byte >> 2;
        assert(b == byte / 4 && b < 64) by (bit_vector)
            requires
                b == byte >> 2u8,
        ;
        assert(v[86 + j] == b);
        proof {
            lemma_xor_six_bits(b, previous_byte);
        }
        buf.push(LOOKUP_TABLE_62[(b ^ previous_byte) as usize]);
        previous_byte = b;
        j += 1;
    }
    assert(buf@ =~= encode_62_spec(data@).0);
    (buf, LOOKUP_TABLE_62[previous_byte as usize])
}

/// The 4-and-4 encoding of a byte: its odd bits, then its even bits, each interleaved with
/// set bits.
pub open spec fn encode_44_spec(byte: u8) -> Seq<u8> {
    seq![0xaau8 | (byte >> 1u8), 0xaau8 | byte]
}

/// 4-and-4 encodes a byte into two disk bytes.
fn encode_44(byte: u8) -> (r: [u8; 2])
    ensures
        r@ == encode_44_spec(byte),
{
    let x = 0b10101010 | (byte >> 1);
    let y = 0b10101010 | byte;
    let r = [x, y];
    assert(r@ =~= encode_44_spec(byte));
    r
}

/// The two disk bytes of the 4-and-4 encoding give back the byte: the first, shifted left
/// with a set low bit, ANDed with the second.
pub proof fn lemma_encode_44_roundtrip(byte: u8)
    ensures
        (((encode_44_spec(byte)[0] << 1u8) | 1u8) & encode_44_spec(byte)[1]) == byte,
{
    assert((((0xaau8 | (byte >> 1u8)) << 1u8) | 1u8) & (0xaau8 | byte) == byte) by (bit_vector);
}

/// `num` self-sync bytes: eight one bits followed by two zero bits each.
pub open spec fn sync_bits(num: nat) -> Seq<u8>
    decreases num,
{
    if num == 0 {
        Seq::empty()
    } else {
        sync_bits((num - 1) as nat) + seq![1u8, 1u8, 1u8, 1u8, 1u8, 1u8, 1u8, 1u8, 0u8, 0u8]
    }
}

proof fn lemma_sync_bits_len(num: nat)
    ensures
        sync_bits(num).len() == 10 * num,
    decreases num,
{
    if num > 0 {
        lemma_sync_bits_len((num - 1) as nat);
    }
}

/// Writes `num` self-sync bytes.
fn write_sync(bs: &mut Bitstream, num: usize)
    requires
        old(bs).wf(),
        old(bs)@.len() + 10 * num <= usize::MAX,
    ensures
        final(bs).wf(),
        final(bs)@ == old(bs)@ + sync_bits(num as nat),
        final(bs)@.len() == old(bs)@.len() + 10 * num,
{
    let ghost start = bs@;
    let mut n: usize = 0;
    while n < num
        invariant
            n <= num,
            bs.wf(),
            bs@ == start + sync_bits(n as nat),
            start.len() + 10 * num <= usize::MAX,
        decreases num - n,
    {
        proof {
            lemma_sync_bits_len(n as nat);
        }
        let ghost mid = bs@;
        let mut i: usize = 0;
        while i < 8
            invariant
                i <= 8,
                bs.wf(),
                bs@ == mid + Seq::new(i as nat, |k: int| 1u8),
                mid.len() + 10 <= usize::MAX,
            decreases 8 - i,
        {
            bs.write_bit(1);
            proof {
                lemma_and_one(1u8);
            }
            assert(bs@ =~= mid + Seq::new((i + 1) as nat, |k: int| 1u8));
            i += 1;
        }
        let mut j: usize = 0;
        while j < 2
            invariant
                j <= 2,
                bs.wf(),
                bs@ == mid + Seq::new(8, |k: int| 1u8) + Seq::new(j as nat, |k: int| 0u8),
                mid.len() + 10 <= usize::MAX,
            decreases 2 - j,
        {
            bs.write_bit(0);
            proof {
                lemma_and_one(0u8);
            }
            assert(bs@ =~= mid + Seq::new(8, |k: int| 1u8) + Seq::new((j + 1) as nat, |k: int| 0u8));
            j += 1;
        }
        assert(bs@ =~= start + sync_bits((n + 1) as nat));
        n += 1;
    }
    proof {
        lemma_sync_bits_len(num as nat);
    }
}

/// The bit stream of one sector as it lies on a 16-sector disk: 16 sync bytes, the address
/// field (prologue, volume 254, track, sector and checksum in 4-and-4, epilogue), 7 sync
/// bytes, and the data field (prologue, the 6-and-2 encoded data and checksum, epilogue).
pub open spec fn sector_bits(track: usize, sector: usize, data: Seq<u8>) -> Seq<u8> {
    let (encoded, checksum) = encode_62_spec(data);
    sync_bits(16) + bytes_bits(seq![0xd5u8, 0xaau8, 0x96u8]) + bytes_bits(encode_44_spec(254u8))
        + bytes_bits(encode_44_spec(track as u8)) + bytes_bits(encode_44_spec(sector as u8))
        + bytes_bits(encode_44_spec((254usize ^ track ^ sector) as u8)) + bytes_bits(
        seq![0xdeu8, 0xaau8, 0xebu8],
    ) + sync_bits(7) + bytes_bits(seq![0xd5u8, 0xaau8, 0xadu8]) + bytes_bits(encoded) + byte_bits(
        checksum,
    ) + bytes_bits(seq![0xdeu8, 0xaau8, 0xebu8])
}

proof fn lemma_bytes_bits_len(bytes: Seq<u8>)
    ensures
        bytes_bits(bytes).len() == 8 * bytes.len(),
    decreases bytes.len(),
{
    if bytes.len() > 0 {
        lemma_bytes_bits_len(bytes.drop_last());
    }
}

/// The bit stream of a sector is 3134 bits long.
pub proof fn lemma_sector_bits_len(track: usize, sector: usize, data: Seq<u8>)
    ensures
        sector_bits(track, sector, data).len() == 3134,
{
    lemma_sync_bits_len(16);
    lemma_sync_bits_len(7);
    lemma_bytes_bits_len(seq![0xd5u8, 0xaau8, 0x96u8]);
    lemma_bytes_bits_len(seq![0xdeu8, 0xaau8, 0xebu8]);
    lemma_bytes_bits_len(seq![0xd5u8, 0xaau8, 0xadu8]);
    lemma_bytes_bits_len(encode_44_spec(254u8));
    lemma_bytes_bits_len(encode_44_spec(track as u8));
    lemma_bytes_bits_len(encode_44_spec(sector as u8));
    lemma_bytes_bits_len(encode_44_spec((254usize ^ track ^ sector) as u8));
    lemma_bytes_bits_len(encode_62_spec(data).0);
}

/// Encodes one sector of a track as a bit stream; the data must be 256 bytes.
pub fn encode_sector(track: usize, sector: usize, data: &[u8]) -> (r: Result<Bitstream, Error>)
    ensures
        data@.len() != 256 ==> r == Err::<Bitstream, Error>(Error::InvalidSectorLength),
        data@.len() == 256 ==> (r matches Ok(bs) && bs.wf() && bs@ == sector_bits(track, sector, data@)),
{
    if data.len() != 256 {
        return Err(Error::InvalidSectorLength);
    }
    let mut sector_data: [u8; 256] = [0u8; 256];
    let mut i: usize = 0;
    while i < 256
        invariant
            i <= 256,
            data@.len() == 256,
            forall|k: int| 0 <= k < i ==> sector_data@[k] == data@[k],
        decreases 256 - i,
    {
        sector_data[i] = data[i];
        i += 1;
    }
    assert(sector_data@ =~= data@);
    let mut bitstream = Bitstream::new();
    proof {
        lemma_sync_bits_len(16);
        lemma_sync_bits_len(7);
        lemma_bytes_bits_len(seq![0xd5u8, 0xaau8, 0x96u8]);
    }
    write_sync(&mut bitstream, 16);
    // address field
    let volume: usize = 254;
    bitstream.write_bytes(&[0xd5, 0xaa, 0x96]);
    let v44 = encode_44(volume as u8);
    bitstream.write_bytes(&v44);
    let t44 = encode_44(track as u8);
    bitstream.write_bytes(&t44);
    let s44 = encode_44(sector as u8);
    bitstream.write_bytes(&s44);
    let c44 = encode_44((volume ^ track ^ sector) as u8);
    bitstream.write_bytes(&c44);
    bitstream.write_bytes(&[0xde, 0xaa, 0xeb]);
    // gap
    write_sync(&mut bitstream, 7);
    // data field
    bitstream.write_bytes(&[0xd5, 0xaa, 0xad]);
    let (encoded_data, checksum) = encode_62(&sector_data);
    bitstream.write_bytes(encoded_data.as_slice());
    bitstream.write_byte(checksum);
    bitstream.write_bytes(&[0xde, 0xaa, 0xeb]);
    assert(bitstream@ =~= sector_bits(track, sector, data@));
    Ok(bitstream)
}

} // verus!
