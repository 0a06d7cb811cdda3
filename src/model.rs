//! The mathematical meaning of an integer cast.
//!
//! An integer type of `n` bits is described by its modulus `2^n` and its
//! signedness. Casting an integer `v` to such a type keeps the residue of `v`
//! modulo `2^n` (two's-complement truncation); a signed type reads the upper
//! half of the residues as negative numbers.
use vstd::arithmetic::div_mod::lemma_mod_mod;
use vstd::prelude::*;

verus! {

/// The modulus of a 128-bit type, `2^128`.
pub open spec fn modulus_128() -> int {
    u128::MAX + 1
}

/// The modulus of the pointer-sized types, `2^usize::BITS`.
pub open spec fn modulus_size() -> int {
    usize::MAX + 1
}

/// The moduli of the primitive integer types: `2^8`, `2^16`, `2^32`, `2^64`, `2^128`.
pub open spec fn is_width_modulus(m: int) -> bool {
    m == 0x100 || m == 0x1_0000 || m == 0x1_0000_0000 || m == 0x1_0000_0000_0000_0000
        || m == modulus_128()
}

/// Whether `v` is a value of the integer type with modulus `m` and the given signedness.
pub open spec fn in_range(v: int, m: int, signed: bool) -> bool {
    if signed {
        -(m / 2) <= v < m / 2
    } else {
        0 <= v < m
    }
}

/// The value that a cast of `v` to the integer type with modulus `m` and the given
/// signedness yields: the residue of `v` modulo `m`, read as a two's-complement
/// number when the type is signed.
pub open spec fn cast_value(v: int, m: int, signed: bool) -> int {
    let r = v % m;
    if signed && r >= m / 2 {
        r - m
    } else {
        r
    }
}

/// A cast only looks at the residue modulo `2^128`.
pub proof fn lemma_cast_value_of_residue(v: int, m: int, signed: bool)
    requires
        is_width_modulus(m),
    ensures
        cast_value(v % modulus_128(), m, signed) == cast_value(v, m, signed),
{
    let k: int = if m == 0x100 {
        0x1_0000_0000_0000_0000_0000_0000_0000_00
    } else if m == 0x1_0000 {
        0x1_0000_0000_0000_0000_0000_0000_0000
    } else if m == 0x1_0000_0000 {
        0x1_0000_0000_0000_0000_0000_0000
    } else if m == 0x1_0000_0000_0000_0000 {
        0x1_0000_0000_0000_0000
    } else {
        1
    };
    assert(m * k == modulus_128());
    lemma_mod_mod(v, m, k);
}

/// A value of the target type is left as it is by the cast.
pub proof fn lemma_cast_value_in_range(v: int, m: int, signed: bool)
    requires
        is_width_modulus(m),
        in_range(v, m, signed),
    ensures
        cast_value(v, m, signed) == v,
{
    if signed && v < 0 {
        assert((v + m) % m == v + m);
        assert(v % m == (v + m) % m) by {
            vstd::arithmetic::div_mod::lemma_mod_add_multiples_vanish(v, m);
        }
    }
}

} // verus!
