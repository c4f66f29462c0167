use vstd::prelude::*;

verus! {

/// Multiplication by `x` (the byte 2) in GF(2^8) modulo x^8 + x^4 + x^3 + x + 1.
pub open spec fn times2(b: u8) -> u8 {
    if b < 0x80 {
        b << 1u8
    } else {
        (b << 1u8) ^ 0x1bu8
    }
}

/// Multiplication by 3: `2·b ⊕ b`.
pub open spec fn times3(b: u8) -> u8 {
    times2(b) ^ b
}

/// Multiplication by 9: `8·b ⊕ b`.
pub open spec fn times9(b: u8) -> u8 {
    times2(times2(times2(b))) ^ b
}

/// Multiplication by 11: `8·b ⊕ 2·b ⊕ b`.
pub open spec fn times11(b: u8) -> u8 {
    times2(times2(times2(b))) ^ times2(b) ^ b
}

/// Multiplication by 13: `8·b ⊕ 4·b ⊕ b`.
pub open spec fn times13(b: u8) -> u8 {
    times2(times2(times2(b))) ^ times2(times2(b)) ^ b
}

/// Multiplication by 14: `8·b ⊕ 4·b ⊕ 2·b`.
pub open spec fn times14(b: u8) -> u8 {
    times2(times2(times2(b))) ^ times2(times2(b)) ^ times2(b)
}

/// One row of the MixColumns matrix, which is circulant: the row with
/// coefficients (2, 3, 1, 1) applied to `(a, b, c, d)`.
pub open spec fn mix_row(a: u8, b: u8, c: u8, d: u8) -> u8 {
    times2(a) ^ times3(b) ^ c ^ d
}

/// One row of the inverse matrix, coefficients (14, 11, 13, 9).
pub open spec fn inv_mix_row(a: u8, b: u8, c: u8, d: u8) -> u8 {
    times14(a) ^ times11(b) ^ times13(c) ^ times9(d)
}

/// Each constant multiplication distributes over xor.
proof fn lemma_times14_xor(x: u8, y: u8)
    ensures
        times14(x ^ y) == times14(x) ^ times14(y),
{
    assert(times14(x ^ y) == times14(x) ^ times14(y)) by (bit_vector);
}

proof fn lemma_times14_mix_row(a: u8, b: u8, c: u8, d: u8)
    ensures
        times14(mix_row(a, b, c, d))
            == times14(times2(a)) ^ times14(times3(b)) ^ times14(c) ^ times14(d),
{
    lemma_times14_xor(times2(a) ^ times3(b) ^ c, d);
    lemma_times14_xor(times2(a) ^ times3(b), c);
    lemma_times14_xor(times2(a), times3(b));
}

proof fn lemma_times11_xor(x: u8, y: u8)
    ensures
        times11(x ^ y) == times11(x) ^ times11(y),
{
    assert(times11(x ^ y) == times11(x) ^ times11(y)) by (bit_vector);
}

proof fn lemma_times11_mix_row(a: u8, b: u8, c: u8, d: u8)
    ensures
        times11(mix_row(a, b, c, d))
            == times11(times2(a)) ^ times11(times3(b)) ^ times11(c) ^ times11(d),
{
    lemma_times11_xor(times2(a) ^ times3(b) ^ c, d);
    lemma_times11_xor(times2(a) ^ times3(b), c);
    lemma_times11_xor(times2(a), times3(b));
}

proof fn lemma_times13_xor(x: u8, y: u8)
    ensures
        times13(x ^ y) == times13(x) ^ times13(y),
{
    assert(times13(x ^ y) == times13(x) ^ times13(y)) by (bit_vector);
}

proof fn lemma_times13_mix_row(a: u8, b: u8, c: u8, d: u8)
    ensures
        times13(mix_row(a, b, c, d))
            == times13(times2(a)) ^ times13(times3(b)) ^ times13(c) ^ times13(d),
{
    lemma_times13_xor(times2(a) ^ times3(b) ^ c, d);
    lemma_times13_xor(times2(a) ^ times3(b), c);
    lemma_times13_xor(times2(a), times3(b));
}

proof fn lemma_times9_xor(x: u8, y: u8)
    ensures
        times9(x ^ y) == times9(x) ^ times9(y),
{
    assert(times9(x ^ y) == times9(x) ^ times9(y)) by (bit_vector);
}

proof fn lemma_times9_mix_row(a: u8, b: u8, c: u8, d: u8)
    ensures
        times9(mix_row(a, b, c, d))
            == times9(times2(a)) ^ times9(times3(b)) ^ times9(c) ^ times9(d),
{
    lemma_times9_xor(times2(a) ^ times3(b) ^ c, d);
    lemma_times9_xor(times2(a) ^ times3(b), c);
    lemma_times9_xor(times2(a), times3(b));
}

/// The inverse matrix row, applied to the four mixed bytes, gives back the
/// first input byte. By the circulant shape this covers every row.
pub proof fn lemma_inv_mix_row(a: u8, b: u8, c: u8, d: u8)
    ensures
        inv_mix_row(
            mix_row(a, b, c, d),
            mix_row(b, c, d, a),
            mix_row(c, d, a, b),
            mix_row(d, a, b, c),
        ) == a,
{
    lemma_times14_mix_row(a, b, c, d);
    lemma_times11_mix_row(b, c, d, a);
    lemma_times13_mix_row(c, d, a, b);
    lemma_times9_mix_row(d, a, b, c);
    // The products that each input byte collects add up to the byte itself
    // for `a` and to 0 for the others.
    assert(times14(times2(a)) ^ times11(a) ^ times13(a) ^ times9(times3(a)) == a) by (bit_vector);
    assert(times14(times3(b)) ^ times11(times2(b)) ^ times13(b) ^ times9(b) == 0) by (bit_vector);
    assert(times14(c) ^ times11(times3(c)) ^ times13(times2(c)) ^ times9(c) == 0) by (bit_vector);
    assert(times14(d) ^ times11(d) ^ times13(times3(d)) ^ times9(times2(d)) == 0) by (bit_vector);
    let a0 = times14(times2(a));
    let a1 = times11(a);
    let a2 = times13(a);
    let a3 = times9(times3(a));
    let b0 = times14(times3(b));
    let b1 = times11(times2(b));
    let b2 = times13(b);
    let b3 = times9(b);
    let c0 = times14(c);
    let c1 = times11(times3(c));
    let c2 = times13(times2(c));
    let c3 = times9(c);
    let d0 = times14(d);
    let d1 = times11(d);
    let d2 = times13(times3(d));
    let d3 = times9(times2(d));
    assert((a0 ^ b0 ^ c0 ^ d0) ^ (b1 ^ c1 ^ d1 ^ a1) ^ (c2 ^ d2 ^ a2 ^ b2) ^ (d3 ^ a3 ^ b3 ^ c3)
        == a) by (bit_vector)
        requires
            a0 ^ a1 ^ a2 ^ a3 == a,
            b0 ^ b1 ^ b2 ^ b3 == 0,
            c0 ^ c1 ^ c2 ^ c3 == 0,
            d0 ^ d1 ^ d2 ^ d3 == 0,
    ;
}

/// Doubles a byte in GF(2^8): shift left one bit and, if the bit shifted
/// out was set, reduce by xoring with 0x1B.
pub fn xtime(b: u8) -> (r: u8)
    ensures
        r == times2(b),
{
    let h: u8 = (b >> 7u8) & 1u8;
    assert(h <= 1) by (bit_vector)
        requires
            h == (b >> 7u8) & 1u8,
    ;
    let r: u8 = (b << 1u8) ^ (h * 0x1bu8);
    assert(r == times2(b)) by (bit_vector)
        requires
            h == (b >> 7u8) & 1u8,
            r == (b << 1u8) ^ ((h * 0x1bu8) as u8),
    ;
    r
}

} // verus!
