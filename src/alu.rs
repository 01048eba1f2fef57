//! Arithmetic on the machine's 15-bit words.

use vstd::prelude::*;

verus! {

/// Arithmetic results are taken modulo this value.
pub const MODULUS: u32 = 32768;

/// Sum of two words modulo 32768.
pub open spec fn add_spec(b: u16, c: u16) -> u16 {
    ((b as int + c as int) % 32768) as u16
}

/// Product of two words modulo 32768.
pub open spec fn mult_spec(b: u16, c: u16) -> u16 {
    ((b as int * c as int) % 32768) as u16
}

/// Bitwise complement of a word, masked to 15 bits.
pub open spec fn not_spec(b: u16) -> u16 {
    !b & 0x7fff
}

/// Adds two words modulo 32768.
pub fn word_add(b: u16, c: u16) -> (r: u16)
    ensures
        r == add_spec(b, c),
        r < 32768,
{
    ((b as u32 + c as u32) % MODULUS) as u16
}

/// Multiplies two words modulo 32768.
pub fn word_mult(b: u16, c: u16) -> (r: u16)
    ensures
        r == mult_spec(b, c),
        r < 32768,
{
    proof {
        assert(b as u32 * c as u32 <= 0xffff * 0xffff) by (nonlinear_arith);
    }
    ((b as u32 * c as u32) % MODULUS) as u16
}

/// Complements a word and keeps its low 15 bits.
pub fn word_not(b: u16) -> (r: u16)
    ensures
        r == not_spec(b),
        r < 32768,
{
    let r = !b & 0x7fff;
    assert(!b & 0x7fff < 32768) by (bit_vector);
    r
}

/// Complementing a 15-bit word twice gives the word back.
pub proof fn lemma_not_involution(b: u16)
    requires
        b < 32768,
    ensures
        not_spec(not_spec(b)) == b,
{
    assert(b < 32768 ==> !(!b & 0x7fff) & 0x7fff == b) by (bit_vector);
}

} // verus!
