//! The value space of the machine: fifteen-bit words, the split of the
//! sixteen-bit operand range into literals and register tokens, and
//! arithmetic that wraps at the modulus.

use vstd::prelude::*;

verus! {

/// Number of words in the memory bank, and the modulus of all arithmetic.
pub const MAX_VALUE: usize = 32768;

/// Number of registers.
pub const REGISTERS: usize = 8;

/// True when `w` stands for itself: a literal value or a memory address.
pub open spec fn is_literal(w: int) -> bool {
    0 <= w < 32768
}

/// True when `w` names one of the registers.
pub open spec fn is_register(w: int) -> bool {
    32768 <= w < 32776
}

/// The register that a register token names.
pub open spec fn register_index(w: int) -> int
    recommends
        is_register(w),
{
    w - 32768
}

/// The sum of `a` and `b` reduced modulo 32768.
pub open spec fn wrap_add(a: int, b: int) -> int {
    (a + b) % 32768
}

/// The product of `a` and `b` reduced modulo 32768.
pub open spec fn wrap_mul(a: int, b: int) -> int {
    (a * b) % 32768
}

/// The complement of `a` within the low fifteen bits.
pub open spec fn wrap_not(a: u16) -> u16 {
    (a ^ 0x7fff) & 0x7fff
}

/// The token that names register `r`, or nothing where there is no such
/// register.
pub fn register_token(r: usize) -> (token: Option<u16>)
    ensures
        token == if r < 8 {
            Some((32768 + r) as u16)
        } else {
            None
        },
        token matches Some(t) ==> is_register(t as int) && register_index(t as int) == r,
{
    if r < REGISTERS {
        Some((MAX_VALUE + r) as u16)
    } else {
        None
    }
}

/// Reduces `a` modulo 32768.
pub fn wrap(a: usize) -> (w: u16)
    ensures
        w == a % 32768,
        w < 32768,
{
    (a % MAX_VALUE) as u16
}

/// Adds two words, wrapping at 32768.
pub fn add(a: u16, b: u16) -> (sum: u16)
    ensures
        sum == wrap_add(a as int, b as int),
        sum < 32768,
{
    wrap((a as usize) + (b as usize))
}

/// Multiplies two words, wrapping at 32768.
pub fn mult(a: u16, b: u16) -> (product: u16)
    ensures
        product == wrap_mul(a as int, b as int),
        product < 32768,
{
    assert((a as int) * (b as int) <= 65535 * 65535) by (nonlinear_arith)
        requires
            0 <= a <= 65535,
            0 <= b <= 65535,
    ;
    wrap((a as usize) * (b as usize))
}

/// Wrapping addition does not depend on the order of its operands, and its
/// result is a word.
pub proof fn lemma_wrap_add_commutes(a: int, b: int)
    ensures
        wrap_add(a, b) == wrap_add(b, a),
        0 <= wrap_add(a, b) < 32768,
{
}

/// Wrapping multiplication does not depend on the order of its operands, and
/// its result is a word.
pub proof fn lemma_wrap_mul_commutes(a: int, b: int)
    ensures
        wrap_mul(a, b) == wrap_mul(b, a),
        0 <= wrap_mul(a, b) < 32768,
{
    assert(a * b == b * a) by (nonlinear_arith);
}

/// The complement of a word is a word, the one that adds up with it to
/// 32767; taken twice it gives the word back.
pub proof fn lemma_wrap_not(a: u16)
    ensures
        wrap_not(a) < 32768,
        a < 32768 ==> wrap_not(a) == 32767 - a,
        a < 32768 ==> wrap_not(wrap_not(a)) == a,
{
    assert(((a ^ 0x7fff) & 0x7fff) < 32768) by (bit_vector);
    assert(a < 32768 ==> ((a ^ 0x7fff) & 0x7fff) == 32767 - a) by (bit_vector);
    assert(a < 32768 ==> ((((a ^ 0x7fff) & 0x7fff) ^ 0x7fff) & 0x7fff) == a) by (bit_vector);
}

} // verus!
