use vstd::prelude::*;

verus! {

/// Bit `k` of byte `b`.
pub open spec fn bit(b: u8, k: nat) -> bool {
    (b as nat / pow2(k)) % 2 == 1
}

/// 2 to the power `k`.
pub open spec fn pow2(k: nat) -> nat
    decreases k,
{
    if k == 0 {
        1
    } else {
        2 * pow2((k - 1) as nat)
    }
}

/// Byte `b` with bit `k` (0 to 7) set to `v`.
pub open spec fn with_bit(b: u8, k: nat, v: bool) -> u8 {
    if v == bit(b, k) {
        b
    } else if v {
        (b + pow2(k)) as u8
    } else {
        (b - pow2(k)) as u8
    }
}

/// Byte `b` with bit `k` set to `v`.
pub fn set_bit(b: u8, k: u32, v: bool) -> (r: u8)
    requires
        k < 8,
    ensures
        r == with_bit(b, k as nat, v),
{
    let p: u8 = if k == 0 { 1 } else if k == 1 { 2 } else if k == 2 { 4 } else if k == 3 { 8 } else if k == 4 { 16 } else if k == 5 { 32 } else if k == 6 { 64 } else { 128 };
    proof {
        reveal_with_fuel(pow2, 9);
    }
    let is_set = (b / p) % 2 == 1;
    if v == is_set {
        b
    } else if v {
        assert(b as nat + p < 256) by (nonlinear_arith)
            requires
                (b as nat / p as nat) % 2 == 0,
                p == 1 || p == 2 || p == 4 || p == 8 || p == 16 || p == 32 || p == 64 || p == 128,
                b < 256,
        ;
        b + p
    } else {
        assert(b >= p) by (nonlinear_arith)
            requires
                (b as nat / p as nat) % 2 == 1,
                p > 0,
        ;
        b - p
    }
}

/// Bit `k` of `b`.
pub fn get_bit(b: u8, k: u32) -> (r: bool)
    requires
        k < 8,
    ensures
        r == bit(b, k as nat),
{
    proof {
        reveal_with_fuel(pow2, 9);
    }
    let p: u8 = if k == 0 { 1 } else if k == 1 { 2 } else if k == 2 { 4 } else if k == 3 { 8 } else if k == 4 { 16 } else if k == 5 { 32 } else if k == 6 { 64 } else { 128 };
    (b / p) % 2 == 1
}

} // verus!

verus! {

proof fn lemma_pow2_shift(k: nat)
    requires
        k < 8,
    ensures
        pow2(k) == (1u8 << (k as u8)) as nat,
{
    reveal_with_fuel(pow2, 9);
    assert((1u8 << 0u8) == 1u8 && (1u8 << 1u8) == 2u8 && (1u8 << 2u8) == 4u8 && (1u8 << 3u8) == 8u8 && (1u8 << 4u8)
        == 16u8 && (1u8 << 5u8) == 32u8 && (1u8 << 6u8) == 64u8 && (1u8 << 7u8) == 128u8) by (bit_vector);
}

/// The low bit of a byte is 0 or 1, and a byte that is 0 or 1 is its own low bit.
pub proof fn lemma_and_one(x: u8)
    ensures
        x & 1u8 < 2,
        x < 2 ==> x & 1u8 == x,
{
    assert(x & 1u8 < 2 && (x < 2 ==> x & 1u8 == x)) by (bit_vector);
}

/// Setting bit `k` to `v` makes bit `k` read `v` and leaves every other bit as it was.
pub proof fn lemma_with_bit(b: u8, k: nat, v: bool, j: nat)
    requires
        k < 8,
        j < 8,
    ensures
        bit(with_bit(b, k, v), j) == (if j == k { v } else { bit(b, j) }),
{
    lemma_pow2_shift(k);
    lemma_pow2_shift(j);
    let kk = k as u8;
    let jj = j as u8;
    let p = 1u8 << kk;
    let q = 1u8 << jj;
    let w = with_bit(b, k, v);
    assert(bit(b, k) == ((b / p) % 2 == 1));
    assert(bit(b, j) == ((b / q) % 2 == 1));
    assert(bit(w, j) == ((w / q) % 2 == 1));
    if v == bit(b, k) {
    } else if v {
        assert((b / p) % 2 == 0);
        assert(w == (b + p) as u8);
        assert(((w / q) % 2 == 1) == (if jj == kk { true } else { (b / q) % 2 == 1 })) by (bit_vector)
            requires
                kk < 8,
                jj < 8,
                p == 1u8 << kk,
                q == 1u8 << jj,
                (b / p) % 2 == 0,
                w == (b + p) as u8,
        ;
    } else {
        assert((b / p) % 2 == 1);
        assert(w == (b - p) as u8);
        assert(((w / q) % 2 == 1) == (if jj == kk { false } else { (b / q) % 2 == 1 })) by (bit_vector)
            requires
                kk < 8,
                jj < 8,
                p == 1u8 << kk,
                q == 1u8 << jj,
                (b / p) % 2 == 1,
                w == (b - p) as u8,
        ;
    }
}

} // verus!
