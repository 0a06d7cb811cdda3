//! Facts about the cast operator on the primitive integer types.
//!
//! Each cast is related to a cast through `u128`: a source type is first
//! widened to 128 bits (its residue modulo `2^128`), and the residue is then
//! narrowed to the target type. One bit-level fact per source type and one per
//! target type carry every pair of types.
use crate::model::{
    cast_value, in_range, is_width_modulus, lemma_cast_value_of_residue, modulus_128,
    modulus_size,
};
use vstd::arithmetic::div_mod::{lemma_mod_add_multiples_vanish, lemma_small_mod};
use vstd::prelude::*;

verus! {

/// The pointer-sized modulus is that of a 32-bit or of a 64-bit type.
pub proof fn lemma_modulus_size()
    ensures
        usize::BITS == 32 ==> modulus_size() == 0x1_0000_0000,
        usize::BITS == 64 ==> modulus_size() == 0x1_0000_0000_0000_0000,
        is_width_modulus(modulus_size()),
        in_range(usize::MAX as int, modulus_size(), false),
        isize::MAX + 1 == modulus_size() / 2,
{
}

/// Bit-level form of `widen_usize`.
proof fn bv_widen_usize(x: usize)
    by (bit_vector)
    ensures
        (x as usize) == ((x as u128) as usize),
        (x as isize) == ((x as u128) as isize),
        (x as i128) == ((x as u128) as i128),
        (x as u64) == ((x as u128) as u64),
        (x as i64) == ((x as u128) as i64),
        (x as u32) == ((x as u128) as u32),
        (x as i32) == ((x as u128) as i32),
        (x as u16) == ((x as u128) as u16),
        (x as i16) == ((x as u128) as i16),
        (x as u8) == ((x as u128) as u8),
        (x as i8) == ((x as u128) as i8),
{
}

/// A cast from `usize` is a cast of its residue modulo `2^128`.
pub proof fn widen_usize(x: usize)
    ensures
        (x as u128) as int == (x as int) % modulus_128(),
        (x as usize) == ((x as u128) as usize),
        (x as isize) == ((x as u128) as isize),
        (x as i128) == ((x as u128) as i128),
        (x as u64) == ((x as u128) as u64),
        (x as i64) == ((x as u128) as i64),
        (x as u32) == ((x as u128) as u32),
        (x as i32) == ((x as u128) as i32),
        (x as u16) == ((x as u128) as u16),
        (x as i16) == ((x as u128) as i16),
        (x as u8) == ((x as u128) as u8),
        (x as i8) == ((x as u128) as i8),
{
    bv_widen_usize(x);
    lemma_small_mod(x as nat, modulus_128() as nat);
}

/// Bit-level form of `widen_isize`.
proof fn bv_widen_isize(x: isize)
    by (bit_vector)
    ensures
        (x as usize) == ((x as u128) as usize),
        (x as isize) == ((x as u128) as isize),
        (x as i128) == ((x as u128) as i128),
        (x as u64) == ((x as u128) as u64),
        (x as i64) == ((x as u128) as i64),
        (x as u32) == ((x as u128) as u32),
        (x as i32) == ((x as u128) as i32),
        (x as u16) == ((x as u128) as u16),
        (x as i16) == ((x as u128) as i16),
        (x as u8) == ((x as u128) as u8),
        (x as i8) == ((x as u128) as i8),
        x >= 0 ==> (x as u128) == x,
        x < 0 ==> (x as u128) == 0xffff_ffff_ffff_ffff_ffff_ffff_ffff_ffff - (-1 - x),
{
}

/// A cast from `isize` is a cast of its residue modulo `2^128`.
pub proof fn widen_isize(x: isize)
    ensures
        (x as u128) as int == (x as int) % modulus_128(),
        (x as usize) == ((x as u128) as usize),
        (x as isize) == ((x as u128) as isize),
        (x as i128) == ((x as u128) as i128),
        (x as u64) == ((x as u128) as u64),
        (x as i64) == ((x as u128) as i64),
        (x as u32) == ((x as u128) as u32),
        (x as i32) == ((x as u128) as i32),
        (x as u16) == ((x as u128) as u16),
        (x as i16) == ((x as u128) as i16),
        (x as u8) == ((x as u128) as u8),
        (x as i8) == ((x as u128) as i8),
{
    bv_widen_isize(x);
    if x >= 0 {
        lemma_small_mod(x as nat, modulus_128() as nat);
    }
    if x < 0 {
        lemma_mod_add_multiples_vanish(x as int, modulus_128());
        assert((modulus_128() + x as int) % modulus_128() == modulus_128() + x as int);
    }
}

/// Bit-level form of `widen_u128`.
proof fn bv_widen_u128(x: u128)
    by (bit_vector)
    ensures
        (x as usize) == ((x as u128) as usize),
        (x as isize) == ((x as u128) as isize),
        (x as i128) == ((x as u128) as i128),
        (x as u64) == ((x as u128) as u64),
        (x as i64) == ((x as u128) as i64),
        (x as u32) == ((x as u128) as u32),
        (x as i32) == ((x as u128) as i32),
        (x as u16) == ((x as u128) as u16),
        (x as i16) == ((x as u128) as i16),
        (x as u8) == ((x as u128) as u8),
        (x as i8) == ((x as u128) as i8),
{
}

/// A cast from `u128` is a cast of its residue modulo `2^128`.
pub proof fn widen_u128(x: u128)
    ensures
        (x as u128) as int == (x as int) % modulus_128(),
        (x as usize) == ((x as u128) as usize),
        (x as isize) == ((x as u128) as isize),
        (x as i128) == ((x as u128) as i128),
        (x as u64) == ((x as u128) as u64),
        (x as i64) == ((x as u128) as i64),
        (x as u32) == ((x as u128) as u32),
        (x as i32) == ((x as u128) as i32),
        (x as u16) == ((x as u128) as u16),
        (x as i16) == ((x as u128) as i16),
        (x as u8) == ((x as u128) as u8),
        (x as i8) == ((x as u128) as i8),
{
    bv_widen_u128(x);
    lemma_small_mod(x as nat, modulus_128() as nat);
}

/// Bit-level form of `widen_i128`.
proof fn bv_widen_i128(x: i128)
    by (bit_vector)
    ensures
        (x as usize) == ((x as u128) as usize),
        (x as isize) == ((x as u128) as isize),
        (x as i128) == ((x as u128) as i128),
        (x as u64) == ((x as u128) as u64),
        (x as i64) == ((x as u128) as i64),
        (x as u32) == ((x as u128) as u32),
        (x as i32) == ((x as u128) as i32),
        (x as u16) == ((x as u128) as u16),
        (x as i16) == ((x as u128) as i16),
        (x as u8) == ((x as u128) as u8),
        (x as i8) == ((x as u128) as i8),
        x >= 0 ==> (x as u128) == x,
        x < 0 ==> (x as u128) == 0xffff_ffff_ffff_ffff_ffff_ffff_ffff_ffff - (-1 - x),
{
}

/// A cast from `i128` is a cast of its residue modulo `2^128`.
pub proof fn widen_i128(x: i128)
    ensures
        (x as u128) as int == (x as int) % modulus_128(),
        (x as usize) == ((x as u128) as usize),
        (x as isize) == ((x as u128) as isize),
        (x as i128) == ((x as u128) as i128),
        (x as u64) == ((x as u128) as u64),
        (x as i64) == ((x as u128) as i64),
        (x as u32) == ((x as u128) as u32),
        (x as i32) == ((x as u128) as i32),
        (x as u16) == ((x as u128) as u16),
        (x as i16) == ((x as u128) as i16),
        (x as u8) == ((x as u128) as u8),
        (x as i8) == ((x as u128) as i8),
{
    bv_widen_i128(x);
    if x >= 0 {
        lemma_small_mod(x as nat, modulus_128() as nat);
    }
    if x < 0 {
        lemma_mod_add_multiples_vanish(x as int, modulus_128());
        assert((modulus_128() + x as int) % modulus_128() == modulus_128() + x as int);
    }
}

/// Bit-level form of `widen_u64`.
proof fn bv_widen_u64(x: u64)
    by (bit_vector)
    ensures
        (x as usize) == ((x as u128) as usize),
        (x as isize) == ((x as u128) as isize),
        (x as i128) == ((x as u128) as i128),
        (x as u64) == ((x as u128) as u64),
        (x as i64) == ((x as u128) as i64),
        (x as u32) == ((x as u128) as u32),
        (x as i32) == ((x as u128) as i32),
        (x as u16) == ((x as u128) as u16),
        (x as i16) == ((x as u128) as i16),
        (x as u8) == ((x as u128) as u8),
        (x as i8) == ((x as u128) as i8),
{
}

/// A cast from `u64` is a cast of its residue modulo `2^128`.
pub proof fn widen_u64(x: u64)
    ensures
        (x as u128) as int == (x as int) % modulus_128(),
        (x as usize) == ((x as u128) as usize),
        (x as isize) == ((x as u128) as isize),
        (x as i128) == ((x as u128) as i128),
        (x as u64) == ((x as u128) as u64),
        (x as i64) == ((x as u128) as i64),
        (x as u32) == ((x as u128) as u32),
        (x as i32) == ((x as u128) as i32),
        (x as u16) == ((x as u128) as u16),
        (x as i16) == ((x as u128) as i16),
        (x as u8) == ((x as u128) as u8),
        (x as i8) == ((x as u128) as i8),
{
    bv_widen_u64(x);
    lemma_small_mod(x as nat, modulus_128() as nat);
}

/// Bit-level form of `widen_i64`.
proof fn bv_widen_i64(x: i64)
    by (bit_vector)
    ensures
        (x as usize) == ((x as u128) as usize),
        (x as isize) == ((x as u128) as isize),
        (x as i128) == ((x as u128) as i128),
        (x as u64) == ((x as u128) as u64),
        (x as i64) == ((x as u128) as i64),
        (x as u32) == ((x as u128) as u32),
        (x as i32) == ((x as u128) as i32),
        (x as u16) == ((x as u128) as u16),
        (x as i16) == ((x as u128) as i16),
        (x as u8) == ((x as u128) as u8),
        (x as i8) == ((x as u128) as i8),
        x >= 0 ==> (x as u128) == x,
        x < 0 ==> (x as u128) == 0xffff_ffff_ffff_ffff_ffff_ffff_ffff_ffff - (-1 - x),
{
}

/// A cast from `i64` is a cast of its residue modulo `2^128`.
pub proof fn widen_i64(x: i64)
    ensures
        (x as u128) as int == (x as int) % modulus_128(),
        (x as usize) == ((x as u128) as usize),
        (x as isize) == ((x as u128) as isize),
        (x as i128) == ((x as u128) as i128),
        (x as u64) == ((x as u128) as u64),
        (x as i64) == ((x as u128) as i64),
        (x as u32) == ((x as u128) as u32),
        (x as i32) == ((x as u128) as i32),
        (x as u16) == ((x as u128) as u16),
        (x as i16) == ((x as u128) as i16),
        (x as u8) == ((x as u128) as u8),
        (x as i8) == ((x as u128) as i8),
{
    bv_widen_i64(x);
    if x >= 0 {
        lemma_small_mod(x as nat, modulus_128() as nat);
    }
    if x < 0 {
        lemma_mod_add_multiples_vanish(x as int, modulus_128());
        assert((modulus_128() + x as int) % modulus_128() == modulus_128() + x as int);
    }
}

/// Bit-level form of `widen_u32`.
proof fn bv_widen_u32(x: u32)
    by (bit_vector)
    ensures
        (x as usize) == ((x as u128) as usize),
        (x as isize) == ((x as u128) as isize),
        (x as i128) == ((x as u128) as i128),
        (x as u64) == ((x as u128) as u64),
        (x as i64) == ((x as u128) as i64),
        (x as u32) == ((x as u128) as u32),
        (x as i32) == ((x as u128) as i32),
        (x as u16) == ((x as u128) as u16),
        (x as i16) == ((x as u128) as i16),
        (x as u8) == ((x as u128) as u8),
        (x as i8) == ((x as u128) as i8),
{
}

/// A cast from `u32` is a cast of its residue modulo `2^128`.
pub proof fn widen_u32(x: u32)
    ensures
        (x as u128) as int == (x as int) % modulus_128(),
        (x as usize) == ((x as u128) as usize),
        (x as isize) == ((x as u128) as isize),
        (x as i128) == ((x as u128) as i128),
        (x as u64) == ((x as u128) as u64),
        (x as i64) == ((x as u128) as i64),
        (x as u32) == ((x as u128) as u32),
        (x as i32) == ((x as u128) as i32),
        (x as u16) == ((x as u128) as u16),
        (x as i16) == ((x as u128) as i16),
        (x as u8) == ((x as u128) as u8),
        (x as i8) == ((x as u128) as i8),
{
    bv_widen_u32(x);
    lemma_small_mod(x as nat, modulus_128() as nat);
}

/// Bit-level form of `widen_i32`.
proof fn bv_widen_i32(x: i32)
    by (bit_vector)
    ensures
        (x as usize) == ((x as u128) as usize),
        (x as isize) == ((x as u128) as isize),
        (x as i128) == ((x as u128) as i128),
        (x as u64) == ((x as u128) as u64),
        (x as i64) == ((x as u128) as i64),
        (x as u32) == ((x as u128) as u32),
        (x as i32) == ((x as u128) as i32),
        (x as u16) == ((x as u128) as u16),
        (x as i16) == ((x as u128) as i16),
        (x as u8) == ((x as u128) as u8),
        (x as i8) == ((x as u128) as i8),
        x >= 0 ==> (x as u128) == x,
        x < 0 ==> (x as u128) == 0xffff_ffff_ffff_ffff_ffff_ffff_ffff_ffff - (-1 - x),
{
}

/// A cast from `i32` is a cast of its residue modulo `2^128`.
pub proof fn widen_i32(x: i32)
    ensures
        (x as u128) as int == (x as int) % modulus_128(),
        (x as usize) == ((x as u128) as usize),
        (x as isize) == ((x as u128) as isize),
        (x as i128) == ((x as u128) as i128),
        (x as u64) == ((x as u128) as u64),
        (x as i64) == ((x as u128) as i64),
        (x as u32) == ((x as u128) as u32),
        (x as i32) == ((x as u128) as i32),
        (x as u16) == ((x as u128) as u16),
        (x as i16) == ((x as u128) as i16),
        (x as u8) == ((x as u128) as u8),
        (x as i8) == ((x as u128) as i8),
{
    bv_widen_i32(x);
    if x >= 0 {
        lemma_small_mod(x as nat, modulus_128() as nat);
    }
    if x < 0 {
        lemma_mod_add_multiples_vanish(x as int, modulus_128());
        assert((modulus_128() + x as int) % modulus_128() == modulus_128() + x as int);
    }
}

/// Bit-level form of `widen_u16`.
proof fn bv_widen_u16(x: u16)
    by (bit_vector)
    ensures
        (x as usize) == ((x as u128) as usize),
        (x as isize) == ((x as u128) as isize),
        (x as i128) == ((x as u128) as i128),
        (x as u64) == ((x as u128) as u64),
        (x as i64) == ((x as u128) as i64),
        (x as u32) == ((x as u128) as u32),
        (x as i32) == ((x as u128) as i32),
        (x as u16) == ((x as u128) as u16),
        (x as i16) == ((x as u128) as i16),
        (x as u8) == ((x as u128) as u8),
        (x as i8) == ((x as u128) as i8),
{
}

/// A cast from `u16` is a cast of its residue modulo `2^128`.
pub proof fn widen_u16(x: u16)
    ensures
        (x as u128) as int == (x as int) % modulus_128(),
        (x as usize) == ((x as u128) as usize),
        (x as isize) == ((x as u128) as isize),
        (x as i128) == ((x as u128) as i128),
        (x as u64) == ((x as u128) as u64),
        (x as i64) == ((x as u128) as i64),
        (x as u32) == ((x as u128) as u32),
        (x as i32) == ((x as u128) as i32),
        (x as u16) == ((x as u128) as u16),
        (x as i16) == ((x as u128) as i16),
        (x as u8) == ((x as u128) as u8),
        (x as i8) == ((x as u128) as i8),
{
    bv_widen_u16(x);
    lemma_small_mod(x as nat, modulus_128() as nat);
}

/// Bit-level form of `widen_i16`.
proof fn bv_widen_i16(x: i16)
    by (bit_vector)
    ensures
        (x as usize) == ((x as u128) as usize),
        (x as isize) == ((x as u128) as isize),
        (x as i128) == ((x as u128) as i128),
        (x as u64) == ((x as u128) as u64),
        (x as i64) == ((x as u128) as i64),
        (x as u32) == ((x as u128) as u32),
        (x as i32) == ((x as u128) as i32),
        (x as u16) == ((x as u128) as u16),
        (x as i16) == ((x as u128) as i16),
        (x as u8) == ((x as u128) as u8),
        (x as i8) == ((x as u128) as i8),
        x >= 0 ==> (x as u128) == x,
        x < 0 ==> (x as u128) == 0xffff_ffff_ffff_ffff_ffff_ffff_ffff_ffff - (-1 - x),
{
}

/// A cast from `i16` is a cast of its residue modulo `2^128`.
pub proof fn widen_i16(x: i16)
    ensures
        (x as u128) as int == (x as int) % modulus_128(),
        (x as usize) == ((x as u128) as usize),
        (x as isize) == ((x as u128) as isize),
        (x as i128) == ((x as u128) as i128),
        (x as u64) == ((x as u128) as u64),
        (x as i64) == ((x as u128) as i64),
        (x as u32) == ((x as u128) as u32),
        (x as i32) == ((x as u128) as i32),
        (x as u16) == ((x as u128) as u16),
        (x as i16) == ((x as u128) as i16),
        (x as u8) == ((x as u128) as u8),
        (x as i8) == ((x as u128) as i8),
{
    bv_widen_i16(x);
    if x >= 0 {
        lemma_small_mod(x as nat, modulus_128() as nat);
    }
    if x < 0 {
        lemma_mod_add_multiples_vanish(x as int, modulus_128());
        assert((modulus_128() + x as int) % modulus_128() == modulus_128() + x as int);
    }
}

/// Bit-level form of `widen_u8`.
proof fn bv_widen_u8(x: u8)
    by (bit_vector)
    ensures
        (x as usize) == ((x as u128) as usize),
        (x as isize) == ((x as u128) as isize),
        (x as i128) == ((x as u128) as i128),
        (x as u64) == ((x as u128) as u64),
        (x as i64) == ((x as u128) as i64),
        (x as u32) == ((x as u128) as u32),
        (x as i32) == ((x as u128) as i32),
        (x as u16) == ((x as u128) as u16),
        (x as i16) == ((x as u128) as i16),
        (x as u8) == ((x as u128) as u8),
        (x as i8) == ((x as u128) as i8),
{
}

/// A cast from `u8` is a cast of its residue modulo `2^128`.
pub proof fn widen_u8(x: u8)
    ensures
        (x as u128) as int == (x as int) % modulus_128(),
        (x as usize) == ((x as u128) as usize),
        (x as isize) == ((x as u128) as isize),
        (x as i128) == ((x as u128) as i128),
        (x as u64) == ((x as u128) as u64),
        (x as i64) == ((x as u128) as i64),
        (x as u32) == ((x as u128) as u32),
        (x as i32) == ((x as u128) as i32),
        (x as u16) == ((x as u128) as u16),
        (x as i16) == ((x as u128) as i16),
        (x as u8) == ((x as u128) as u8),
        (x as i8) == ((x as u128) as i8),
{
    bv_widen_u8(x);
    lemma_small_mod(x as nat, modulus_128() as nat);
}

/// Bit-level form of `widen_i8`.
proof fn bv_widen_i8(x: i8)
    by (bit_vector)
    ensures
        (x as usize) == ((x as u128) as usize),
        (x as isize) == ((x as u128) as isize),
        (x as i128) == ((x as u128) as i128),
        (x as u64) == ((x as u128) as u64),
        (x as i64) == ((x as u128) as i64),
        (x as u32) == ((x as u128) as u32),
        (x as i32) == ((x as u128) as i32),
        (x as u16) == ((x as u128) as u16),
        (x as i16) == ((x as u128) as i16),
        (x as u8) == ((x as u128) as u8),
        (x as i8) == ((x as u128) as i8),
        x >= 0 ==> (x as u128) == x,
        x < 0 ==> (x as u128) == 0xffff_ffff_ffff_ffff_ffff_ffff_ffff_ffff - (-1 - x),
{
}

/// A cast from `i8` is a cast of its residue modulo `2^128`.
pub proof fn widen_i8(x: i8)
    ensures
        (x as u128) as int == (x as int) % modulus_128(),
        (x as usize) == ((x as u128) as usize),
        (x as isize) == ((x as u128) as isize),
        (x as i128) == ((x as u128) as i128),
        (x as u64) == ((x as u128) as u64),
        (x as i64) == ((x as u128) as i64),
        (x as u32) == ((x as u128) as u32),
        (x as i32) == ((x as u128) as i32),
        (x as u16) == ((x as u128) as u16),
        (x as i16) == ((x as u128) as i16),
        (x as u8) == ((x as u128) as u8),
        (x as i8) == ((x as u128) as i8),
{
    bv_widen_i8(x);
    if x >= 0 {
        lemma_small_mod(x as nat, modulus_128() as nat);
    }
    if x < 0 {
        lemma_mod_add_multiples_vanish(x as int, modulus_128());
        assert((modulus_128() + x as int) % modulus_128() == modulus_128() + x as int);
    }
}

/// Bit-level form of `narrow_usize`.
proof fn bv_narrow_usize(y: u128)
    by (bit_vector)
    ensures
        usize::BITS == 32 ==> (y as usize) == y % 0x1_0000_0000,
        usize::BITS == 64 ==> (y as usize) == y % 0x1_0000_0000_0000_0000,
{
}

/// Narrowing a residue modulo `2^128` to `usize` gives the value of the cast.
pub proof fn narrow_usize(y: u128, v: int)
    requires
        y as int == v % modulus_128(),
    ensures
        (y as usize) as int == cast_value(v, modulus_size(), false),
{
    bv_narrow_usize(y);
    lemma_modulus_size();
    lemma_cast_value_of_residue(v, modulus_size(), false);
}

/// Bit-level form of `narrow_isize`.
proof fn bv_narrow_isize(y: u128)
    by (bit_vector)
    ensures
        usize::BITS == 32 && y % 0x1_0000_0000 < 0x8000_0000 ==> (y as isize) == y % 0x1_0000_0000,
        usize::BITS == 32 && y % 0x1_0000_0000 >= 0x8000_0000 ==> (y as isize) == y % 0x1_0000_0000 - 0x1_0000_0000,
        usize::BITS == 64 && y % 0x1_0000_0000_0000_0000 < 0x8000_0000_0000_0000 ==> (y as isize) == y % 0x1_0000_0000_0000_0000,
        usize::BITS == 64 && y % 0x1_0000_0000_0000_0000 >= 0x8000_0000_0000_0000 ==> (y as isize) == y % 0x1_0000_0000_0000_0000 - 0x1_0000_0000_0000_0000,
{
}

/// Narrowing a residue modulo `2^128` to `isize` gives the value of the cast.
pub proof fn narrow_isize(y: u128, v: int)
    requires
        y as int == v % modulus_128(),
    ensures
        (y as isize) as int == cast_value(v, modulus_size(), true),
{
    bv_narrow_isize(y);
    lemma_modulus_size();
    lemma_cast_value_of_residue(v, modulus_size(), true);
}

/// Narrowing a residue modulo `2^128` to `u128` gives the value of the cast.
pub proof fn narrow_u128(y: u128, v: int)
    requires
        y as int == v % modulus_128(),
    ensures
        (y as u128) as int == cast_value(v, modulus_128(), false),
{
    lemma_cast_value_of_residue(v, modulus_128(), false);
}

/// Bit-level form of `narrow_i128`.
proof fn bv_narrow_i128(y: u128)
    by (bit_vector)
    ensures
        y < 0x8000_0000_0000_0000_0000_0000_0000_0000 ==> (y as i128) == y,
        y >= 0x8000_0000_0000_0000_0000_0000_0000_0000 ==> (y as i128) == y - 0x8000_0000_0000_0000_0000_0000_0000_0000 - 0x8000_0000_0000_0000_0000_0000_0000_0000,
{
}

/// Narrowing a residue modulo `2^128` to `i128` gives the value of the cast.
pub proof fn narrow_i128(y: u128, v: int)
    requires
        y as int == v % modulus_128(),
    ensures
        (y as i128) as int == cast_value(v, modulus_128(), true),
{
    bv_narrow_i128(y);
    lemma_cast_value_of_residue(v, modulus_128(), true);
}

/// Bit-level form of `narrow_u64`.
proof fn bv_narrow_u64(y: u128)
    by (bit_vector)
    ensures
        (y as u64) == y % 0x1_0000_0000_0000_0000,
{
}

/// Narrowing a residue modulo `2^128` to `u64` gives the value of the cast.
pub proof fn narrow_u64(y: u128, v: int)
    requires
        y as int == v % modulus_128(),
    ensures
        (y as u64) as int == cast_value(v, 0x1_0000_0000_0000_0000, false),
{
    bv_narrow_u64(y);
    lemma_cast_value_of_residue(v, 0x1_0000_0000_0000_0000, false);
}

/// Bit-level form of `narrow_i64`.
proof fn bv_narrow_i64(y: u128)
    by (bit_vector)
    ensures
        y % 0x1_0000_0000_0000_0000 < 0x8000_0000_0000_0000 ==> (y as i64) == y % 0x1_0000_0000_0000_0000,
        y % 0x1_0000_0000_0000_0000 >= 0x8000_0000_0000_0000 ==> (y as i64) == y % 0x1_0000_0000_0000_0000 - 0x1_0000_0000_0000_0000,
{
}

/// Narrowing a residue modulo `2^128` to `i64` gives the value of the cast.
pub proof fn narrow_i64(y: u128, v: int)
    requires
        y as int == v % modulus_128(),
    ensures
        (y as i64) as int == cast_value(v, 0x1_0000_0000_0000_0000, true),
{
    bv_narrow_i64(y);
    lemma_cast_value_of_residue(v, 0x1_0000_0000_0000_0000, true);
}

/// Bit-level form of `narrow_u32`.
proof fn bv_narrow_u32(y: u128)
    by (bit_vector)
    ensures
        (y as u32) == y % 0x1_0000_0000,
{
}

/// Narrowing a residue modulo `2^128` to `u32` gives the value of the cast.
pub proof fn narrow_u32(y: u128, v: int)
    requires
        y as int == v % modulus_128(),
    ensures
        (y as u32) as int == cast_value(v, 0x1_0000_0000, false),
{
    bv_narrow_u32(y);
    lemma_cast_value_of_residue(v, 0x1_0000_0000, false);
}

/// Bit-level form of `narrow_i32`.
proof fn bv_narrow_i32(y: u128)
    by (bit_vector)
    ensures
        y % 0x1_0000_0000 < 0x8000_0000 ==> (y as i32) == y % 0x1_0000_0000,
        y % 0x1_0000_0000 >= 0x8000_0000 ==> (y as i32) == y % 0x1_0000_0000 - 0x1_0000_0000,
{
}

/// Narrowing a residue modulo `2^128` to `i32` gives the value of the cast.
pub proof fn narrow_i32(y: u128, v: int)
    requires
        y as int == v % modulus_128(),
    ensures
        (y as i32) as int == cast_value(v, 0x1_0000_0000, true),
{
    bv_narrow_i32(y);
    lemma_cast_value_of_residue(v, 0x1_0000_0000, true);
}

/// Bit-level form of `narrow_u16`.
proof fn bv_narrow_u16(y: u128)
    by (bit_vector)
    ensures
        (y as u16) == y % 0x1_0000,
{
}

/// Narrowing a residue modulo `2^128` to `u16` gives the value of the cast.
pub proof fn narrow_u16(y: u128, v: int)
    requires
        y as int == v % modulus_128(),
    ensures
        (y as u16) as int == cast_value(v, 0x1_0000, false),
{
    bv_narrow_u16(y);
    lemma_cast_value_of_residue(v, 0x1_0000, false);
}

/// Bit-level form of `narrow_i16`.
proof fn bv_narrow_i16(y: u128)
    by (bit_vector)
    ensures
        y % 0x1_0000 < 0x8000 ==> (y as i16) == y % 0x1_0000,
        y % 0x1_0000 >= 0x8000 ==> (y as i16) == y % 0x1_0000 - 0x1_0000,
{
}

/// Narrowing a residue modulo `2^128` to `i16` gives the value of the cast.
pub proof fn narrow_i16(y: u128, v: int)
    requires
        y as int == v % modulus_128(),
    ensures
        (y as i16) as int == cast_value(v, 0x1_0000, true),
{
    bv_narrow_i16(y);
    lemma_cast_value_of_residue(v, 0x1_0000, true);
}

/// Bit-level form of `narrow_u8`.
proof fn bv_narrow_u8(y: u128)
    by (bit_vector)
    ensures
        (y as u8) == y % 0x100,
{
}

/// Narrowing a residue modulo `2^128` to `u8` gives the value of the cast.
pub proof fn narrow_u8(y: u128, v: int)
    requires
        y as int == v % modulus_128(),
    ensures
        (y as u8) as int == cast_value(v, 0x100, false),
{
    bv_narrow_u8(y);
    lemma_cast_value_of_residue(v, 0x100, false);
}

/// Bit-level form of `narrow_i8`.
proof fn bv_narrow_i8(y: u128)
    by (bit_vector)
    ensures
        y % 0x100 < 0x80 ==> (y as i8) == y % 0x100,
        y % 0x100 >= 0x80 ==> (y as i8) == y % 0x100 - 0x100,
{
}

/// Narrowing a residue modulo `2^128` to `i8` gives the value of the cast.
pub proof fn narrow_i8(y: u128, v: int)
    requires
        y as int == v % modulus_128(),
    ensures
        (y as i8) as int == cast_value(v, 0x100, true),
{
    bv_narrow_i8(y);
    lemma_cast_value_of_residue(v, 0x100, true);
}

} // verus!
