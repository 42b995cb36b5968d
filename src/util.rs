use vstd::prelude::*;

verus! {

/// Whether `b` is a binary digit.
pub open spec fn is_bit(b: u8) -> bool {
    b == 0 || b == 1
}

/// The number whose binary digits, most significant first, are the binary
/// entries of `s`; entries other than 0 and 1 are skipped as if absent.
pub open spec fn bits_value(s: Seq<u8>) -> nat
    decreases s.len(),
{
    if s.len() == 0 {
        0
    } else if is_bit(s.last()) {
        2 * bits_value(s.drop_last()) + s.last() as nat
    } else {
        bits_value(s.drop_last())
    }
}

proof fn lemma_shift_in(acc: u8, bit: u8)
    requires
        is_bit(bit),
    ensures
        ((acc << 1u8) ^ bit) as int == (2 * acc + bit) % 256,
{
    assert(((acc << 1u8) ^ bit) == ((2 * acc + bit) % 256) as u8) by (bit_vector)
        requires
            bit == 0u8 || bit == 1u8,
    ;
}

/// Packs a sequence of bits, most significant first, into a byte. Entries
/// that are not 0 or 1 are skipped; higher bits than eight are shifted out.
pub fn vec_to_int(bits: &[u8]) -> (r: u8)
    ensures
        r as nat == bits_value(bits@) % 256,
{
    let mut acc: u8 = 0;
    let mut i: usize = 0;
    while i < bits.len()
        invariant
            i <= bits@.len(),
            acc as nat == bits_value(bits@.subrange(0, i as int)) % 256,
        decreases bits@.len() - i,
    {
        let bit = bits[i];
        let ghost prefix = bits@.subrange(0, i as int);
        let ghost next = bits@.subrange(0, i + 1);
        assert(next.drop_last() =~= prefix);
        if bit == 0 || bit == 1 {
            proof {
                lemma_shift_in(acc, bit);
                let v = bits_value(prefix);
                assert((2 * (v % 256) + bit) % 256 == (2 * v + bit) % 256) by (nonlinear_arith);
            }
            acc = (acc << 1u8) ^ bit;
        }
        i = i + 1;
    }
    assert(bits@.subrange(0, bits@.len() as int) =~= bits@);
    acc
}

} // verus!
