//! The numeric narrowing rules applied to evaluation results.
//!
//! The runtime reduces every numeric evaluation result modulo 2^32 (its
//! standard ToUint32 conversion, after which non-finite numbers are zero
//! and fractions are truncated toward zero). Each narrower integer target
//! type is obtained from that 32-bit residue by a further modulo
//! reduction, and each signed target type by a two's-complement
//! reinterpretation of the reduced residue. All of that arithmetic is
//! done and proved here.

use vstd::arithmetic::div_mod::{
    lemma_fundamental_div_mod, lemma_mod_bound, lemma_mod_mod, lemma_mod_sub_multiples_vanish,
    lemma_small_mod,
};
use vstd::prelude::*;

verus! {

/// The residue of `x` modulo `m`, read as an unsigned value.
pub open spec fn unsigned_mod(x: u32, m: int) -> int {
    (x as int) % m
}

/// The residue of `x` modulo `m`, read as a two's-complement signed
/// value: residues of `m / 2` and above stand for negative numbers.
pub open spec fn signed_mod(x: u32, m: int) -> int {
    if unsigned_mod(x, m) < m / 2 {
        unsigned_mod(x, m)
    } else {
        unsigned_mod(x, m) - m
    }
}

/// Narrows a 32-bit residue to the unsigned 8-bit target type.
pub fn coerce_u8(x: u32) -> (r: u8)
    ensures
        r as int == unsigned_mod(x, 0x100),
{
    (x % 0x100) as u8
}

/// Narrows a 32-bit residue to the signed 8-bit target type.
pub fn coerce_i8(x: u32) -> (r: i8)
    ensures
        r as int == signed_mod(x, 0x100),
{
    let m: u32 = x % 0x100;
    if m < 0x80 {
        m as i8
    } else {
        ((m as i32) - 0x100) as i8
    }
}

/// Narrows a 32-bit residue to the unsigned 16-bit target type.
pub fn coerce_u16(x: u32) -> (r: u16)
    ensures
        r as int == unsigned_mod(x, 0x10000),
{
    (x % 0x10000) as u16
}

/// Narrows a 32-bit residue to the signed 16-bit target type.
pub fn coerce_i16(x: u32) -> (r: i16)
    ensures
        r as int == signed_mod(x, 0x10000),
{
    let m: u32 = x % 0x10000;
    if m < 0x8000 {
        m as i16
    } else {
        ((m as i32) - 0x10000) as i16
    }
}

/// Reads a 32-bit residue as the unsigned 32-bit target type.
pub fn coerce_u32(x: u32) -> (r: u32)
    ensures
        r as int == unsigned_mod(x, 0x1_0000_0000),
{
    proof {
        lemma_small_mod(x as nat, 0x1_0000_0000);
    }
    x
}

/// Reads a 32-bit residue as the signed 32-bit target type.
pub fn coerce_i32(x: u32) -> (r: i32)
    ensures
        r as int == signed_mod(x, 0x1_0000_0000),
{
    proof {
        lemma_small_mod(x as nat, 0x1_0000_0000);
    }
    if x < 0x8000_0000 {
        x as i32
    } else {
        ((x as i64) - 0x1_0000_0000) as i32
    }
}

/// Narrowing an already in-range value is the identity: every unsigned
/// target type returns a literal integer below its width's modulus
/// exactly.
pub proof fn lemma_unsigned_mod_identity(x: u32, m: int)
    requires
        0 < m,
        (x as int) < m,
    ensures
        unsigned_mod(x, m) == x as int,
{
    lemma_small_mod(x as nat, m as nat);
}

/// Every signed target type returns a value within its positive range
/// exactly: below half of an even width's modulus, the signed reading
/// agrees with the value itself.
pub proof fn lemma_signed_mod_identity(x: u32, m: int)
    requires
        0 < m,
        m % 2 == 0,
        2 * (x as int) < m,
    ensures
        signed_mod(x, m) == x as int,
{
    lemma_fundamental_div_mod(m, 2);
    lemma_small_mod(x as nat, m as nat);
}

/// The narrowing rules are total: the unsigned reading of any value lands
/// in `[0, m)`, whatever the value.
pub proof fn lemma_unsigned_mod_range(x: u32, m: int)
    requires
        0 < m,
    ensures
        0 <= unsigned_mod(x, m) < m,
{
    lemma_mod_bound(x as int, m);
}

/// The signed reading of any value lands in `[-m/2, m/2)` for an even
/// modulus, whatever the value.
pub proof fn lemma_signed_mod_range(x: u32, m: int)
    requires
        0 < m,
        m % 2 == 0,
    ensures
        -(m / 2) <= signed_mod(x, m) < m / 2,
{
    lemma_mod_bound(x as int, m);
}

/// Narrowing composes: reducing to a wide residue and then reading a
/// narrower target off it gives the same residue as reducing directly,
/// whenever the narrow modulus divides the wide one. This is what lets
/// every narrower target type be computed from the 32-bit reduction the
/// runtime hands back.
pub proof fn lemma_narrowing_composes(x: u32, a: int, b: int)
    requires
        0 < a,
        0 < b,
    ensures
        unsigned_mod(x, a * b) % a == unsigned_mod(x, a),
{
    lemma_mod_mod(x as int, a, b);
}

/// The signed and unsigned readings of one value are congruent modulo the
/// width: the signed reinterpretation changes the representative, never
/// the residue.
pub proof fn lemma_signed_unsigned_congruent(x: u32, m: int)
    requires
        0 < m,
    ensures
        signed_mod(x, m) % m == unsigned_mod(x, m),
{
    lemma_mod_bound(x as int, m);
    lemma_small_mod(unsigned_mod(x, m) as nat, m as nat);
    lemma_mod_sub_multiples_vanish(unsigned_mod(x, m), m);
}

} // verus!
