//! Bit decomposition of byte strings.
//!
//! Plaintext bytes are decomposed into bits most-significant-bit first;
//! both protocol roles must use this same order.

use vstd::prelude::*;

verus! {

/// Bit `k` (0 = most significant, 7 = least significant) of byte `b`.
pub open spec fn byte_bit(b: u8, k: int) -> bool {
    (b >> ((7 - k) as u8)) & 1u8 == 1u8
}

/// The bit sequence of a byte string, most-significant-bit first within
/// each byte: bit `i` of the sequence is bit `i % 8` of byte `i / 8`.
pub open spec fn bits_of(bytes: Seq<u8>) -> Seq<bool> {
    Seq::new(bytes.len() * 8, |i: int| byte_bit(bytes[i / 8], i % 8))
}

/// Decomposes a byte string into its bit sequence, most-significant-bit
/// first within each byte.
pub fn u8vec_to_boolvec(bytes: &Vec<u8>) -> (r: Vec<bool>)
    ensures
        r@ == bits_of(bytes@),
{
    let mut r: Vec<bool> = Vec::new();
    let mut i: usize = 0;
    while i < bytes.len()
        invariant
            i <= bytes.len(),
            r@.len() == i * 8,
            forall|b: int, k: int|
                0 <= b < i && 0 <= k < 8 ==> r@[8 * b + k] == byte_bit(bytes@[b], k),
        decreases bytes.len() - i,
    {
        let byte = bytes[i];
        let mut k: usize = 0;
        while k < 8
            invariant
                0 <= i < bytes.len(),
                k <= 8,
                byte == bytes@[i as int],
                r@.len() == i * 8 + k,
                forall|b: int, kk: int|
                    0 <= b < i && 0 <= kk < 8 ==> r@[8 * b + kk] == byte_bit(bytes@[b], kk),
                forall|kk: int| 0 <= kk < k ==> r@[8 * (i as int) + kk] == byte_bit(byte, kk),
            decreases 8 - k,
        {
            let bit = ((byte >> ((7 - k) as u8)) & 1u8) == 1u8;
            assert(bit == byte_bit(byte, k as int));
            r.push(bit);
            k += 1;
        }
        i += 1;
    }
    proof {
        assert(r@.len() == bits_of(bytes@).len());
        assert forall|t: int| 0 <= t < r@.len() implies r@[t] == bits_of(bytes@)[t] by {
            let b = t / 8;
            let k = t % 8;
            vstd::arithmetic::div_mod::lemma_fundamental_div_mod(t, 8);
            assert(0 <= k < 8) by {
                vstd::arithmetic::div_mod::lemma_mod_bound(t, 8);
            }
            assert(0 <= b < bytes@.len()) by (nonlinear_arith)
                requires
                    t == 8 * b + k,
                    0 <= k < 8,
                    0 <= t < bytes@.len() * 8,
            {}
            assert(r@[8 * b + k] == byte_bit(bytes@[b], k));
        }
        assert(r@ =~= bits_of(bytes@));
    }
    r
}

} // verus!
