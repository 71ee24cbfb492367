use vstd::prelude::*;
use vstd::string::StrSliceExecFns;

verus! {

/// Whether `c` has the Unicode White_Space property, as `char::is_whitespace` decides.
pub open spec fn is_unicode_whitespace(c: char) -> bool {
    let u = c as u32;
    ||| 0x09 <= u <= 0x0d
    ||| u == 0x20
    ||| u == 0x85
    ||| u == 0xa0
    ||| u == 0x1680
    ||| 0x2000 <= u <= 0x200a
    ||| u == 0x2028
    ||| u == 0x2029
    ||| u == 0x202f
    ||| u == 0x205f
    ||| u == 0x3000
}

/// `s` without its leading whitespace.
pub open spec fn trim_start_chars(s: Seq<char>) -> Seq<char>
    decreases s.len(),
{
    if s.len() > 0 && is_unicode_whitespace(s[0]) {
        trim_start_chars(s.drop_first())
    } else {
        s
    }
}

/// `s` without its trailing whitespace.
pub open spec fn trim_end_chars(s: Seq<char>) -> Seq<char>
    decreases s.len(),
{
    if s.len() > 0 && is_unicode_whitespace(s.last()) {
        trim_end_chars(s.drop_last())
    } else {
        s
    }
}

/// `s` without leading and trailing whitespace.
pub open spec fn trimmed(s: Seq<char>) -> Seq<char> {
    trim_end_chars(trim_start_chars(s))
}

/// The index of the first `c` in `s` from `i` on, or -1 where there is none.
pub open spec fn index_of_from(s: Seq<char>, c: char, i: int) -> int
    decreases s.len() - i,
{
    if i < 0 || i >= s.len() {
        -1
    } else if s[i] == c {
        i
    } else {
        index_of_from(s, c, i + 1)
    }
}

/// `s` split at its first `c`: what stands before it and what stands after it.
pub open spec fn split_once_chars(s: Seq<char>, c: char) -> Option<(Seq<char>, Seq<char>)> {
    let i = index_of_from(s, c, 0);
    if i < 0 {
        None
    } else {
        Some((s.subrange(0, i), s.subrange(i + 1, s.len() as int)))
    }
}

/// What `str::to_lowercase` makes of a text: each character's Unicode lower case mapping.
pub uninterp spec fn unicode_lowercase(s: Seq<char>) -> Seq<char>;

/// `str::to_lowercase`: claimed to give the named lower case of the text.
#[verifier::external_body]
pub(crate) fn lowercase(s: &str) -> (r: String)
    ensures
        r@ == unicode_lowercase(s@),
{
    s.to_lowercase()
}

/// Decodes UTF-8 bytes with `String::from_utf8`: the text they encode, or `None` where they
/// are not valid UTF-8.
#[verifier::external_body]
pub(crate) fn utf8_to_string(bytes: Vec<u8>) -> (r: Option<String>)
    ensures
        r is Some <==> vstd::utf8::valid_utf8(bytes@),
        r matches Some(s) ==> s@ == vstd::utf8::decode_utf8(bytes@),
{
    String::from_utf8(bytes).ok()
}

/// `str::trim`: the text without leading and trailing Unicode whitespace.
#[verifier::external_body]
pub(crate) fn trim_to_string(s: &str) -> (r: String)
    ensures
        r@ == trimmed(s@),
{
    s.trim().to_string()
}

/// `str::split_once` at the first tab: the text before it and the text after it.
#[verifier::external_body]
pub(crate) fn split_once_tab(s: &str) -> (r: Option<(String, String)>)
    ensures
        r is Some <==> split_once_chars(s@, '\t') is Some,
        r matches Some(p) ==> split_once_chars(s@, '\t') == Some((p.0@, p.1@)),
{
    match s.split_once('\t') {
        Some((a, b)) => Some((a.to_string(), b.to_string())),
        None => None,
    }
}

} // verus!

verus! {

/// The ASCII code of hexadecimal digit `d` (0..15), lower case.
pub open spec fn hex_digit(d: nat) -> u8 {
    if d < 10 {
        (48 + d) as u8
    } else {
        (87 + d) as u8
    }
}

/// `v` in hexadecimal, lower case, with no leading zeros (a single 0 for zero).
pub open spec fn hex_text(v: nat) -> Seq<u8>
    decreases v,
{
    if v < 16 {
        seq![hex_digit(v)]
    } else {
        hex_text(v / 16).push(hex_digit(v % 16))
    }
}

/// `n` ASCII zeros.
pub open spec fn zeros_text(n: nat) -> Seq<u8> {
    Seq::new(n, |i: int| 48u8)
}

/// `v` in hexadecimal, lower case, padded with zeros on the left to `width` digits.
pub open spec fn hex_padded(v: nat, width: nat) -> Seq<u8> {
    let h = hex_text(v);
    if h.len() >= width {
        h
    } else {
        zeros_text((width - h.len()) as nat) + h
    }
}

/// ASCII bytes read as characters.
pub open spec fn ascii_chars(b: Seq<u8>) -> Seq<char> {
    b.map_values(|x: u8| x as char)
}

/// Every byte is an ASCII code.
pub open spec fn is_ascii_bytes(b: Seq<u8>) -> bool {
    forall|i: int| 0 <= i < b.len() ==> #[trigger] b[i] < 128
}

proof fn lemma_hex_text_ascii(v: nat)
    ensures
        is_ascii_bytes(hex_text(v)),
        hex_text(v).len() >= 1,
    decreases v,
{
    if v >= 16 {
        lemma_hex_text_ascii(v / 16);
    }
}

/// Hexadecimal text is ASCII.
pub proof fn lemma_hex_padded_ascii(v: nat, width: nat)
    ensures
        is_ascii_bytes(hex_padded(v, width)),
{
    lemma_hex_text_ascii(v);
}

/// Whether `c` is an ASCII hexadecimal digit (either case).
pub open spec fn is_hex_digit(c: u8) -> bool {
    (48 <= c <= 57) || (97 <= c <= 102) || (65 <= c <= 70)
}

/// The value of hexadecimal digit `c`.
pub open spec fn hex_digit_value(c: u8) -> nat {
    if 48 <= c <= 57 {
        (c - 48) as nat
    } else if 97 <= c <= 102 {
        (c - 87) as nat
    } else if 65 <= c <= 70 {
        (c - 55) as nat
    } else {
        0
    }
}

/// The number that a string of hexadecimal digits writes, most significant digit first.
pub open spec fn hex_value(s: Seq<u8>) -> nat
    decreases s.len(),
{
    if s.len() == 0 {
        0
    } else {
        hex_value(s.drop_last()) * 16 + hex_digit_value(s.last())
    }
}

/// A hexadecimal number reads back as the number, in hexadecimal digits only.
pub proof fn lemma_hex_text_value(v: nat)
    ensures
        hex_value(hex_text(v)) == v,
        forall|i: int| 0 <= i < hex_text(v).len() ==> is_hex_digit(#[trigger] hex_text(v)[i]),
        hex_text(v).len() >= 1,
    decreases v,
{
    if v >= 16 {
        lemma_hex_text_value(v / 16);
        assert(hex_text(v).drop_last() =~= hex_text(v / 16));
        assert(hex_text(v).last() == hex_digit(v % 16));
        assert(hex_digit_value(hex_digit(v % 16)) == v % 16);
        assert(v == (v / 16) * 16 + v % 16);
        assert(hex_value(hex_text(v)) == hex_value(hex_text(v / 16)) * 16 + hex_digit_value(hex_digit(v % 16)));
        assert forall|i: int| 0 <= i < hex_text(v).len() implies is_hex_digit(#[trigger] hex_text(v)[i]) by {
            if i < hex_text(v).len() - 1 {
                assert(hex_text(v)[i] == hex_text(v / 16)[i]);
            }
        }
    } else {
        assert(hex_text(v).drop_last() =~= Seq::<u8>::empty());
        assert(hex_value(Seq::<u8>::empty()) == 0);
        assert(hex_digit_value(hex_digit(v)) == v);
    }
}

proof fn lemma_hex_value_concat(a: Seq<u8>, b: Seq<u8>)
    ensures
        hex_value(a + b) == hex_value(a) * pow16(b.len()) + hex_value(b),
    decreases b.len(),
{
    if b.len() == 0 {
        assert(a + b =~= a);
        assert(pow16(0) == 1);
        assert(hex_value(b) == 0);
    } else {
        lemma_hex_value_concat(a, b.drop_last());
        assert((a + b).drop_last() =~= a + b.drop_last());
        assert((a + b).last() == b.last());
        assert(pow16(b.len()) == 16 * pow16((b.len() - 1) as nat));
        let ha = hex_value(a);
        let p = pow16((b.len() - 1) as nat);
        let hb = hex_value(b.drop_last());
        let d = hex_digit_value(b.last());
        assert(hex_value(a + b) == hex_value(a + b.drop_last()) * 16 + d);
        assert(hex_value(b) == hb * 16 + d);
        assert(hex_value(a + b.drop_last()) == ha * p + hb);
        assert((ha * p + hb) * 16 + d == ha * (16 * p) + (hb * 16 + d)) by (nonlinear_arith);
    }
}

proof fn lemma_zeros_value(n: nat)
    ensures
        hex_value(zeros_text(n)) == 0,
        forall|i: int| 0 <= i < n ==> is_hex_digit(#[trigger] zeros_text(n)[i]),
    decreases n,
{
    if n > 0 {
        lemma_zeros_value((n - 1) as nat);
        assert(zeros_text(n).drop_last() =~= zeros_text((n - 1) as nat));
    }
}

/// A padded hexadecimal number reads back as the number: every character is a hexadecimal
/// digit, the digits write `v`, and a number under 16 to the power `width` takes exactly
/// `width` digits.
pub proof fn lemma_hex_padded_value(v: nat, width: nat)
    ensures
        hex_value(hex_padded(v, width)) == v,
        forall|i: int| 0 <= i < hex_padded(v, width).len() ==> is_hex_digit(#[trigger] hex_padded(v, width)[i]),
        width >= 1 && v < pow16(width) ==> hex_padded(v, width).len() == width,
{
    lemma_hex_text_value(v);
    let h = hex_text(v);
    if h.len() < width {
        let z = zeros_text((width - h.len()) as nat);
        lemma_zeros_value((width - h.len()) as nat);
        lemma_hex_value_concat(z, h);
        assert forall|i: int| 0 <= i < (z + h).len() implies is_hex_digit(#[trigger] (z + h)[i]) by {
            if i < z.len() {
                assert(is_hex_digit(z[i]));
            } else {
                assert(is_hex_digit(h[i - z.len()]));
            }
        }
    }
    if width >= 1 && v < pow16(width) {
        lemma_hex_len_pow(v, width);
    }
}

/// The number of digits of `v` in hexadecimal.
fn hex_len(v: u64) -> (r: usize)
    ensures
        r == hex_text(v as nat).len(),
        r <= 16,
    decreases v,
{
    if v < 16 {
        1
    } else {
        let n = hex_len(v / 16);
        proof {
            assert(v / 16 < 0x1000_0000_0000_0000);
            lemma_hex_len_bound((v / 16) as nat);
        }
        n + 1
    }
}

/// 16 to the power `k`.
pub open spec fn pow16(k: nat) -> nat
    decreases k,
{
    if k == 0 {
        1
    } else {
        16 * pow16((k - 1) as nat)
    }
}

proof fn lemma_hex_len_pow(v: nat, k: nat)
    requires
        k >= 1,
        v < pow16(k),
    ensures
        hex_text(v).len() <= k,
    decreases v,
{
    if v >= 16 {
        assert(k >= 2) by {
            if k == 1 {
                assert(pow16(1) == 16) by {
                    assert(pow16(0) == 1);
                }
            }
        }
        let p = pow16((k - 1) as nat);
        assert(pow16(k) == 16 * p);
        assert(v / 16 < p) by (nonlinear_arith)
            requires
                v < 16 * p,
        ;
        lemma_hex_len_pow(v / 16, (k - 1) as nat);
    }
}

proof fn lemma_hex_len_bound(v: nat)
    requires
        v < 0x1000_0000_0000_0000,
    ensures
        hex_text(v).len() <= 15,
{
    assert(pow16(0) == 1);
    assert(pow16(1) == 16);
    assert(pow16(2) == 0x100);
    assert(pow16(3) == 0x1000);
    assert(pow16(4) == 0x1_0000);
    assert(pow16(5) == 0x10_0000);
    assert(pow16(6) == 0x100_0000);
    assert(pow16(7) == 0x1000_0000);
    assert(pow16(8) == 0x1_0000_0000);
    assert(pow16(9) == 0x10_0000_0000);
    assert(pow16(10) == 0x100_0000_0000);
    assert(pow16(11) == 0x1000_0000_0000);
    assert(pow16(12) == 0x1_0000_0000_0000);
    assert(pow16(13) == 0x10_0000_0000_0000);
    assert(pow16(14) == 0x100_0000_0000_0000);
    assert(pow16(15) == 0x1000_0000_0000_0000);
    lemma_hex_len_pow(v, 15);
}

fn push_hex_digits(out: &mut Vec<u8>, v: u64)
    ensures
        final(out)@ == old(out)@ + hex_text(v as nat),
    decreases v,
{
    if v >= 16 {
        push_hex_digits(out, v / 16);
    }
    let d = (v % 16) as u8;
    let c: u8 = if d < 10 { 48 + d } else { 87 + d };
    let ghost mid = out@;
    out.push(c);
    proof {
        if v >= 16 {
            assert(out@ =~= old(out)@ + hex_text(v as nat));
        } else {
            assert(out@ =~= old(out)@ + hex_text(v as nat));
        }
    }
}

/// Appends `v` in hexadecimal, lower case, padded with zeros to `width` digits.
pub fn push_hex(out: &mut Vec<u8>, v: u64, width: usize)
    ensures
        final(out)@ == old(out)@ + hex_padded(v as nat, width as nat),
{
    let n = hex_len(v);
    let ghost start = out@;
    let mut k: usize = n;
    while k < width
        invariant
            n <= k,
            k <= width || k == n,
            out@ == start + zeros_text((k - n) as nat),
        decreases width - k,
    {
        out.push(48u8);
        assert(out@ =~= start + zeros_text((k + 1 - n) as nat));
        k += 1;
    }
    let ghost mid = out@;
    push_hex_digits(out, v);
    proof {
        if n >= width {
            assert(out@ =~= start + hex_padded(v as nat, width as nat));
        } else {
            assert(out@ =~= start + hex_padded(v as nat, width as nat));
        }
    }
}

/// Appends the bytes of `s`.
pub fn push_bytes(out: &mut Vec<u8>, s: &[u8])
    ensures
        final(out)@ == old(out)@ + s@,
{
    let mut i: usize = 0;
    let ghost start = out@;
    while i < s.len()
        invariant
            i <= s@.len(),
            out@ == start + s@.take(i as int),
        decreases s@.len() - i,
    {
        out.push(s[i]);
        assert(s@.take(i + 1) =~= s@.take(i as int).push(s@[i as int]));
        i += 1;
    }
    assert(s@.take(i as int) =~= s@);
}

/// The text of ASCII bytes.
pub fn ascii_string(bytes: Vec<u8>) -> (r: String)
    requires
        is_ascii_bytes(bytes@),
    ensures
        r@ == ascii_chars(bytes@),
{
    let ghost chars = ascii_chars(bytes@);
    proof {
        assert(vstd::utf8::is_ascii_chars(chars));
        vstd::utf8::is_ascii_chars_encode_utf8(chars);
        assert(vstd::utf8::encode_utf8(chars) =~= bytes@);
        vstd::utf8::encode_utf8_decode_utf8(chars);
        vstd::utf8::encode_utf8_valid_utf8(chars);
    }
    match utf8_to_string(bytes) {
        Some(s) => s,
        None => {
            assert(false);
            String::new()
        },
    }
}

/// Whether two texts are the same.
pub(crate) fn str_eq(a: &str, b: &str) -> (r: bool)
    ensures
        r == (a@ == b@),
{
    let n = a.unicode_len();
    if n != b.unicode_len() {
        return false;
    }
    let mut i: usize = 0;
    while i < n
        invariant
            i <= n,
            n == a@.len(),
            n == b@.len(),
            forall|k: int| 0 <= k < i ==> a@[k] == b@[k],
        decreases n - i,
    {
        if a.get_char(i) != b.get_char(i) {
            return false;
        }
        i += 1;
    }
    assert(a@ =~= b@);
    true
}

} // verus!
