//! The conversion traits: every primitive integer converts to every other.
use crate::cast_facts::{
    lemma_modulus_size,
    narrow_usize,
    narrow_isize,
    narrow_u128,
    narrow_i128,
    narrow_u64,
    narrow_i64,
    narrow_u32,
    narrow_i32,
    narrow_u16,
    narrow_i16,
    narrow_u8,
    narrow_i8,
    widen_usize,
    widen_isize,
    widen_u128,
    widen_i128,
    widen_u64,
    widen_i64,
    widen_u32,
    widen_i32,
    widen_u16,
    widen_i16,
    widen_u8,
    widen_i8,
};
use crate::model::{cast_value, in_range, is_width_modulus, modulus_128, modulus_size};
use vstd::prelude::*;

verus! {

/// Cast to a primitive integer type using `as`.
///
/// `AsPrim` converts any primitive integer type to any other with the regular
/// cast operator: narrowing keeps the low-order bits, widening extends the sign
/// of a signed source and zero-extends an unsigned one, and a cast between the
/// two types of one width reinterprets the bit pattern. Every conversion is
/// total. The contracts state each result as `cast_value` of the source's
/// integer value, for the target's modulus and signedness.
///
/// Verus refuses a trait method that is generic over the trait that declares
/// it, so the construction from any source is the trait `CastFrom`, and the
/// conversion to a type that the caller names is `CastTo::as_`, which every
/// `AsPrim` type has.
pub trait AsPrim: 'static + Copy {
    /// The integer that this value stands for.
    spec fn value(self) -> int;

    /// `2^n` for a type of `n` bits.
    spec fn modulus() -> int;

    /// Whether the type is signed.
    spec fn is_signed() -> bool;

    /// The modulus is that of a primitive width.
    proof fn lemma_modulus()
        ensures
            is_width_modulus(Self::modulus()),
    ;

    /// Every value lies in the range of its type.
    proof fn lemma_value(self)
        ensures
            in_range(self.value(), Self::modulus(), Self::is_signed()),
    ;

    /// Two values with the same integer value are the same value.
    proof fn lemma_value_injective(self, other: Self)
        ensures
            self.value() == other.value() ==> self == other,
    ;

    /// Converts to `usize` with the cast operator.
    fn as_usize(self) -> (r: usize)
        ensures
            r as int == cast_value(self.value(), modulus_size(), false),
    ;

    /// Converts to `isize` with the cast operator.
    fn as_isize(self) -> (r: isize)
        ensures
            r as int == cast_value(self.value(), modulus_size(), true),
    ;

    /// Converts to `u128` with the cast operator.
    fn as_u128(self) -> (r: u128)
        ensures
            r as int == cast_value(self.value(), modulus_128(), false),
    ;

    /// Converts to `i128` with the cast operator.
    fn as_i128(self) -> (r: i128)
        ensures
            r as int == cast_value(self.value(), modulus_128(), true),
    ;

    /// Converts to `u64` with the cast operator.
    fn as_u64(self) -> (r: u64)
        ensures
            r as int == cast_value(self.value(), 0x1_0000_0000_0000_0000, false),
    ;

    /// Converts to `i64` with the cast operator.
    fn as_i64(self) -> (r: i64)
        ensures
            r as int == cast_value(self.value(), 0x1_0000_0000_0000_0000, true),
    ;

    /// Converts to `u32` with the cast operator.
    fn as_u32(self) -> (r: u32)
        ensures
            r as int == cast_value(self.value(), 0x1_0000_0000, false),
    ;

    /// Converts to `i32` with the cast operator.
    fn as_i32(self) -> (r: i32)
        ensures
            r as int == cast_value(self.value(), 0x1_0000_0000, true),
    ;

    /// Converts to `u16` with the cast operator.
    fn as_u16(self) -> (r: u16)
        ensures
            r as int == cast_value(self.value(), 0x1_0000, false),
    ;

    /// Converts to `i16` with the cast operator.
    fn as_i16(self) -> (r: i16)
        ensures
            r as int == cast_value(self.value(), 0x1_0000, true),
    ;

    /// Converts to `u8` with the cast operator.
    fn as_u8(self) -> (r: u8)
        ensures
            r as int == cast_value(self.value(), 0x100, false),
    ;

    /// Converts to `i8` with the cast operator.
    fn as_i8(self) -> (r: i8)
        ensures
            r as int == cast_value(self.value(), 0x100, true),
    ;
}

/// Construction of a value of this type from any primitive integer.
pub trait CastFrom: AsPrim {
    /// Builds a value of this type from `x` with the cast operator.
    fn cast_from<S: AsPrim>(x: S) -> (r: Self)
        ensures
            r.value() == cast_value(x.value(), Self::modulus(), Self::is_signed()),
    ;
}

/// Conversion to a target type chosen by the caller, through `CastFrom`.
pub trait CastTo: AsPrim {
    /// Cast self to the type `T`.
    fn as_<T: CastFrom>(self) -> (r: T)
        ensures
            r.value() == cast_value(self.value(), T::modulus(), T::is_signed()),
    {
        T::cast_from(self)
    }
}

impl<P: AsPrim> CastTo for P {
}

impl AsPrim for u8 {
    open spec fn value(self) -> int {
        self as int
    }

    open spec fn modulus() -> int {
        0x100
    }

    open spec fn is_signed() -> bool {
        false
    }

    proof fn lemma_modulus() {
    }

    proof fn lemma_value(self) {
    }

    proof fn lemma_value_injective(self, other: Self) {
    }

    fn as_usize(self) -> (r: usize) {
        proof {
            widen_u8(self);
            narrow_usize(self as u128, self as int);
        }
        #[verifier::truncate]
        (self as usize)
    }

    fn as_isize(self) -> (r: isize) {
        proof {
            widen_u8(self);
            narrow_isize(self as u128, self as int);
        }
        #[verifier::truncate]
        (self as isize)
    }

    fn as_u128(self) -> (r: u128) {
        proof {
            widen_u8(self);
            narrow_u128(self as u128, self as int);
        }
        #[verifier::truncate]
        (self as u128)
    }

    fn as_i128(self) -> (r: i128) {
        proof {
            widen_u8(self);
            narrow_i128(self as u128, self as int);
        }
        #[verifier::truncate]
        (self as i128)
    }

    fn as_u64(self) -> (r: u64) {
        proof {
            widen_u8(self);
            narrow_u64(self as u128, self as int);
        }
        #[verifier::truncate]
        (self as u64)
    }

    fn as_i64(self) -> (r: i64) {
        proof {
            widen_u8(self);
            narrow_i64(self as u128, self as int);
        }
        #[verifier::truncate]
        (self as i64)
    }

    fn as_u32(self) -> (r: u32) {
        proof {
            widen_u8(self);
            narrow_u32(self as u128, self as int);
        }
        #[verifier::truncate]
        (self as u32)
    }

    fn as_i32(self) -> (r: i32) {
        proof {
            widen_u8(self);
            narrow_i32(self as u128, self as int);
        }
        #[verifier::truncate]
        (self as i32)
    }

    fn as_u16(self) -> (r: u16) {
        proof {
            widen_u8(self);
            narrow_u16(self as u128, self as int);
        }
        #[verifier::truncate]
        (self as u16)
    }

    fn as_i16(self) -> (r: i16) {
        proof {
            widen_u8(self);
            narrow_i16(self as u128, self as int);
        }
        #[verifier::truncate]
        (self as i16)
    }

    fn as_u8(self) -> (r: u8) {
        proof {
            widen_u8(self);
            narrow_u8(self as u128, self as int);
        }
        #[verifier::truncate]
        (self as u8)
    }

    fn as_i8(self) -> (r: i8) {
        proof {
            widen_u8(self);
            narrow_i8(self as u128, self as int);
        }
        #[verifier::truncate]
        (self as i8)
    }
}

impl CastFrom for u8 {
    fn cast_from<S: AsPrim>(x: S) -> (r: Self) {
        x.as_u8()
    }
}

impl AsPrim for i8 {
    open spec fn value(self) -> int {
        self as int
    }

    open spec fn modulus() -> int {
        0x100
    }

    open spec fn is_signed() -> bool {
        true
    }

    proof fn lemma_modulus() {
    }

    proof fn lemma_value(self) {
    }

    proof fn lemma_value_injective(self, other: Self) {
    }

    fn as_usize(self) -> (r: usize) {
        proof {
            widen_i8(self);
            narrow_usize(self as u128, self as int);
        }
        #[verifier::truncate]
        (self as usize)
    }

    fn as_isize(self) -> (r: isize) {
        proof {
            widen_i8(self);
            narrow_isize(self as u128, self as int);
        }
        #[verifier::truncate]
        (self as isize)
    }

    fn as_u128(self) -> (r: u128) {
        proof {
            widen_i8(self);
            narrow_u128(self as u128, self as int);
        }
        #[verifier::truncate]
        (self as u128)
    }

    fn as_i128(self) -> (r: i128) {
        proof {
            widen_i8(self);
            narrow_i128(self as u128, self as int);
        }
        #[verifier::truncate]
        (self as i128)
    }

    fn as_u64(self) -> (r: u64) {
        proof {
            widen_i8(self);
            narrow_u64(self as u128, self as int);
        }
        #[verifier::truncate]
        (self as u64)
    }

    fn as_i64(self) -> (r: i64) {
        proof {
            widen_i8(self);
            narrow_i64(self as u128, self as int);
        }
        #[verifier::truncate]
        (self as i64)
    }

    fn as_u32(self) -> (r: u32) {
        proof {
            widen_i8(self);
            narrow_u32(self as u128, self as int);
        }
        #[verifier::truncate]
        (self as u32)
    }

    fn as_i32(self) -> (r: i32) {
        proof {
            widen_i8(self);
            narrow_i32(self as u128, self as int);
        }
        #[verifier::truncate]
        (self as i32)
    }

    fn as_u16(self) -> (r: u16) {
        proof {
            widen_i8(self);
            narrow_u16(self as u128, self as int);
        }
        #[verifier::truncate]
        (self as u16)
    }

    fn as_i16(self) -> (r: i16) {
        proof {
            widen_i8(self);
            narrow_i16(self as u128, self as int);
        }
        #[verifier::truncate]
        (self as i16)
    }

    fn as_u8(self) -> (r: u8) {
        proof {
            widen_i8(self);
            narrow_u8(self as u128, self as int);
        }
        #[verifier::truncate]
        (self as u8)
    }

    fn as_i8(self) -> (r: i8) {
        proof {
            widen_i8(self);
            narrow_i8(self as u128, self as int);
        }
        #[verifier::truncate]
        (self as i8)
    }
}

impl CastFrom for i8 {
    fn cast_from<S: AsPrim>(x: S) -> (r: Self) {
        x.as_i8()
    }
}

impl AsPrim for u16 {
    open spec fn value(self) -> int {
        self as int
    }

    open spec fn modulus() -> int {
        0x1_0000
    }

    open spec fn is_signed() -> bool {
        false
    }

    proof fn lemma_modulus() {
    }

    proof fn lemma_value(self) {
    }

    proof fn lemma_value_injective(self, other: Self) {
    }

    fn as_usize(self) -> (r: usize) {
        proof {
            widen_u16(self);
            narrow_usize(self as u128, self as int);
        }
        #[verifier::truncate]
        (self as usize)
    }

    fn as_isize(self) -> (r: isize) {
        proof {
            widen_u16(self);
            narrow_isize(self as u128, self as int);
        }
        #[verifier::truncate]
        (self as isize)
    }

    fn as_u128(self) -> (r: u128) {
        proof {
            widen_u16(self);
            narrow_u128(self as u128, self as int);
        }
        #[verifier::truncate]
        (self as u128)
    }

    fn as_i128(self) -> (r: i128) {
        proof {
            widen_u16(self);
            narrow_i128(self as u128, self as int);
        }
        #[verifier::truncate]
        (self as i128)
    }

    fn as_u64(self) -> (r: u64) {
        proof {
            widen_u16(self);
            narrow_u64(self as u128, self as int);
        }
        #[verifier::truncate]
        (self as u64)
    }

    fn as_i64(self) -> (r: i64) {
        proof {
            widen_u16(self);
            narrow_i64(self as u128, self as int);
        }
        #[verifier::truncate]
        (self as i64)
    }

    fn as_u32(self) -> (r: u32) {
        proof {
            widen_u16(self);
            narrow_u32(self as u128, self as int);
        }
        #[verifier::truncate]
        (self as u32)
    }

    fn as_i32(self) -> (r: i32) {
        proof {
            widen_u16(self);
            narrow_i32(self as u128, self as int);
        }
        #[verifier::truncate]
        (self as i32)
    }

    fn as_u16(self) -> (r: u16) {
        proof {
            widen_u16(self);
            narrow_u16(self as u128, self as int);
        }
        #[verifier::truncate]
        (self as u16)
    }

    fn as_i16(self) -> (r: i16) {
        proof {
            widen_u16(self);
            narrow_i16(self as u128, self as int);
        }
        #[verifier::truncate]
        (self as i16)
    }

    fn as_u8(self) -> (r: u8) {
        proof {
            widen_u16(self);
            narrow_u8(self as u128, self as int);
        }
        #[verifier::truncate]
        (self as u8)
    }

    fn as_i8(self) -> (r: i8) {
        proof {
            widen_u16(self);
            narrow_i8(self as u128, self as int);
        }
        #[verifier::truncate]
        (self as i8)
    }
}

impl CastFrom for u16 {
    fn cast_from<S: AsPrim>(x: S) -> (r: Self) {
        x.as_u16()
    }
}

impl AsPrim for i16 {
    open spec fn value(self) -> int {
        self as int
    }

    open spec fn modulus() -> int {
        0x1_0000
    }

    open spec fn is_signed() -> bool {
        true
    }

    proof fn lemma_modulus() {
    }

    proof fn lemma_value(self) {
    }

    proof fn lemma_value_injective(self, other: Self) {
    }

    fn as_usize(self) -> (r: usize) {
        proof {
            widen_i16(self);
            narrow_usize(self as u128, self as int);
        }
        #[verifier::truncate]
        (self as usize)
    }

    fn as_isize(self) -> (r: isize) {
        proof {
            widen_i16(self);
            narrow_isize(self as u128, self as int);
        }
        #[verifier::truncate]
        (self as isize)
    }

    fn as_u128(self) -> (r: u128) {
        proof {
            widen_i16(self);
            narrow_u128(self as u128, self as int);
        }
        #[verifier::truncate]
        (self as u128)
    }

    fn as_i128(self) -> (r: i128) {
        proof {
            widen_i16(self);
            narrow_i128(self as u128, self as int);
        }
        #[verifier::truncate]
        (self as i128)
    }

    fn as_u64(self) -> (r: u64) {
        proof {
            widen_i16(self);
            narrow_u64(self as u128, self as int);
        }
        #[verifier::truncate]
        (self as u64)
    }

    fn as_i64(self) -> (r: i64) {
        proof {
            widen_i16(self);
            narrow_i64(self as u128, self as int);
        }
        #[verifier::truncate]
        (self as i64)
    }

    fn as_u32(self) -> (r: u32) {
        proof {
            widen_i16(self);
            narrow_u32(self as u128, self as int);
        }
        #[verifier::truncate]
        (self as u32)
    }

    fn as_i32(self) -> (r: i32) {
        proof {
            widen_i16(self);
            narrow_i32(self as u128, self as int);
        }
        #[verifier::truncate]
        (self as i32)
    }

    fn as_u16(self) -> (r: u16) {
        proof {
            widen_i16(self);
            narrow_u16(self as u128, self as int);
        }
        #[verifier::truncate]
        (self as u16)
    }

    fn as_i16(self) -> (r: i16) {
        proof {
            widen_i16(self);
            narrow_i16(self as u128, self as int);
        }
        #[verifier::truncate]
        (self as i16)
    }

    fn as_u8(self) -> (r: u8) {
        proof {
            widen_i16(self);
            narrow_u8(self as u128, self as int);
        }
        #[verifier::truncate]
        (self as u8)
    }

    fn as_i8(self) -> (r: i8) {
        proof {
            widen_i16(self);
            narrow_i8(self as u128, self as int);
        }
        #[verifier::truncate]
        (self as i8)
    }
}

impl CastFrom for i16 {
    fn cast_from<S: AsPrim>(x: S) -> (r: Self) {
        x.as_i16()
    }
}

impl AsPrim for u32 {
    open spec fn value(self) -> int {
        self as int
    }

    open spec fn modulus() -> int {
        0x1_0000_0000
    }

    open spec fn is_signed() -> bool {
        false
    }

    proof fn lemma_modulus() {
    }

    proof fn lemma_value(self) {
    }

    proof fn lemma_value_injective(self, other: Self) {
    }

    fn as_usize(self) -> (r: usize) {
        proof {
            widen_u32(self);
            narrow_usize(self as u128, self as int);
        }
        #[verifier::truncate]
        (self as usize)
    }

    fn as_isize(self) -> (r: isize) {
        proof {
            widen_u32(self);
            narrow_isize(self as u128, self as int);
        }
        #[verifier::truncate]
        (self as isize)
    }

    fn as_u128(self) -> (r: u128) {
        proof {
            widen_u32(self);
            narrow_u128(self as u128, self as int);
        }
        #[verifier::truncate]
        (self as u128)
    }

    fn as_i128(self) -> (r: i128) {
        proof {
            widen_u32(self);
            narrow_i128(self as u128, self as int);
        }
        #[verifier::truncate]
        (self as i128)
    }

    fn as_u64(self) -> (r: u64) {
        proof {
            widen_u32(self);
            narrow_u64(self as u128, self as int);
        }
        #[verifier::truncate]
        (self as u64)
    }

    fn as_i64(self) -> (r: i64) {
        proof {
            widen_u32(self);
            narrow_i64(self as u128, self as int);
        }
        #[verifier::truncate]
        (self as i64)
    }

    fn as_u32(self) -> (r: u32) {
        proof {
            widen_u32(self);
            narrow_u32(self as u128, self as int);
        }
        #[verifier::truncate]
        (self as u32)
    }

    fn as_i32(self) -> (r: i32) {
        proof {
            widen_u32(self);
            narrow_i32(self as u128, self as int);
        }
        #[verifier::truncate]
        (self as i32)
    }

    fn as_u16(self) -> (r: u16) {
        proof {
            widen_u32(self);
            narrow_u16(self as u128, self as int);
        }
        #[verifier::truncate]
        (self as u16)
    }

    fn as_i16(self) -> (r: i16) {
        proof {
            widen_u32(self);
            narrow_i16(self as u128, self as int);
        }
        #[verifier::truncate]
        (self as i16)
    }

    fn as_u8(self) -> (r: u8) {
        proof {
            widen_u32(self);
            narrow_u8(self as u128, self as int);
        }
        #[verifier::truncate]
        (self as u8)
    }

    fn as_i8(self) -> (r: i8) {
        proof {
            widen_u32(self);
            narrow_i8(self as u128, self as int);
        }
        #[verifier::truncate]
        (self as i8)
    }
}

impl CastFrom for u32 {
    fn cast_from<S: AsPrim>(x: S) -> (r: Self) {
        x.as_u32()
    }
}

impl AsPrim for i32 {
    open spec fn value(self) -> int {
        self as int
    }

    open spec fn modulus() -> int {
        0x1_0000_0000
    }

    open spec fn is_signed() -> bool {
        true
    }

    proof fn lemma_modulus() {
    }

    proof fn lemma_value(self) {
    }

    proof fn lemma_value_injective(self, other: Self) {
    }

    fn as_usize(self) -> (r: usize) {
        proof {
            widen_i32(self);
            narrow_usize(self as u128, self as int);
        }
        #[verifier::truncate]
        (self as usize)
    }

    fn as_isize(self) -> (r: isize) {
        proof {
            widen_i32(self);
            narrow_isize(self as u128, self as int);
        }
        #[verifier::truncate]
        (self as isize)
    }

    fn as_u128(self) -> (r: u128) {
        proof {
            widen_i32(self);
            narrow_u128(self as u128, self as int);
        }
        #[verifier::truncate]
        (self as u128)
    }

    fn as_i128(self) -> (r: i128) {
        proof {
            widen_i32(self);
            narrow_i128(self as u128, self as int);
        }
        #[verifier::truncate]
        (self as i128)
    }

    fn as_u64(self) -> (r: u64) {
        proof {
            widen_i32(self);
            narrow_u64(self as u128, self as int);
        }
        #[verifier::truncate]
        (self as u64)
    }

    fn as_i64(self) -> (r: i64) {
        proof {
            widen_i32(self);
            narrow_i64(self as u128, self as int);
        }
        #[verifier::truncate]
        (self as i64)
    }

    fn as_u32(self) -> (r: u32) {
        proof {
            widen_i32(self);
            narrow_u32(self as u128, self as int);
        }
        #[verifier::truncate]
        (self as u32)
    }

    fn as_i32(self) -> (r: i32) {
        proof {
            widen_i32(self);
            narrow_i32(self as u128, self as int);
        }
        #[verifier::truncate]
        (self as i32)
    }

    fn as_u16(self) -> (r: u16) {
        proof {
            widen_i32(self);
            narrow_u16(self as u128, self as int);
        }
        #[verifier::truncate]
        (self as u16)
    }

    fn as_i16(self) -> (r: i16) {
        proof {
            widen_i32(self);
            narrow_i16(self as u128, self as int);
        }
        #[verifier::truncate]
        (self as i16)
    }

    fn as_u8(self) -> (r: u8) {
        proof {
            widen_i32(self);
            narrow_u8(self as u128, self as int);
        }
        #[verifier::truncate]
        (self as u8)
    }

    fn as_i8(self) -> (r: i8) {
        proof {
            widen_i32(self);
            narrow_i8(self as u128, self as int);
        }
        #[verifier::truncate]
        (self as i8)
    }
}

impl CastFrom for i32 {
    fn cast_from<S: AsPrim>(x: S) -> (r: Self) {
        x.as_i32()
    }
}

impl AsPrim for u128 {
    open spec fn value(self) -> int {
        self as int
    }

    open spec fn modulus() -> int {
        modulus_128()
    }

    open spec fn is_signed() -> bool {
        false
    }

    proof fn lemma_modulus() {
    }

    proof fn lemma_value(self) {
    }

    proof fn lemma_value_injective(self, other: Self) {
    }

    fn as_usize(self) -> (r: usize) {
        proof {
            widen_u128(self);
            narrow_usize(self as u128, self as int);
        }
        #[verifier::truncate]
        (self as usize)
    }

    fn as_isize(self) -> (r: isize) {
        proof {
            widen_u128(self);
            narrow_isize(self as u128, self as int);
        }
        #[verifier::truncate]
        (self as isize)
    }

    fn as_u128(self) -> (r: u128) {
        proof {
            widen_u128(self);
            narrow_u128(self as u128, self as int);
        }
        #[verifier::truncate]
        (self as u128)
    }

    fn as_i128(self) -> (r: i128) {
        proof {
            widen_u128(self);
            narrow_i128(self as u128, self as int);
        }
        #[verifier::truncate]
        (self as i128)
    }

    fn as_u64(self) -> (r: u64) {
        proof {
            widen_u128(self);
            narrow_u64(self as u128, self as int);
        }
        #[verifier::truncate]
        (self as u64)
    }

    fn as_i64(self) -> (r: i64) {
        proof {
            widen_u128(self);
            narrow_i64(self as u128, self as int);
        }
        #[verifier::truncate]
        (self as i64)
    }

    fn as_u32(self) -> (r: u32) {
        proof {
            widen_u128(self);
            narrow_u32(self as u128, self as int);
        }
        #[verifier::truncate]
        (self as u32)
    }

    fn as_i32(self) -> (r: i32) {
        proof {
            widen_u128(self);
            narrow_i32(self as u128, self as int);
        }
        #[verifier::truncate]
        (self as i32)
    }

    fn as_u16(self) -> (r: u16) {
        proof {
            widen_u128(self);
            narrow_u16(self as u128, self as int);
        }
        #[verifier::truncate]
        (self as u16)
    }

    fn as_i16(self) -> (r: i16) {
        proof {
            widen_u128(self);
            narrow_i16(self as u128, self as int);
        }
        #[verifier::truncate]
        (self as i16)
    }

    fn as_u8(self) -> (r: u8) {
        proof {
            widen_u128(self);
            narrow_u8(self as u128, self as int);
        }
        #[verifier::truncate]
        (self as u8)
    }

    fn as_i8(self) -> (r: i8) {
        proof {
            widen_u128(self);
            narrow_i8(self as u128, self as int);
        }
        #[verifier::truncate]
        (self as i8)
    }
}

impl CastFrom for u128 {
    fn cast_from<S: AsPrim>(x: S) -> (r: Self) {
        x.as_u128()
    }
}

impl AsPrim for i128 {
    open spec fn value(self) -> int {
        self as int
    }

    open spec fn modulus() -> int {
        modulus_128()
    }

    open spec fn is_signed() -> bool {
        true
    }

    proof fn lemma_modulus() {
    }

    proof fn lemma_value(self) {
    }

    proof fn lemma_value_injective(self, other: Self) {
    }

    fn as_usize(self) -> (r: usize) {
        proof {
            widen_i128(self);
            narrow_usize(self as u128, self as int);
        }
        #[verifier::truncate]
        (self as usize)
    }

    fn as_isize(self) -> (r: isize) {
        proof {
            widen_i128(self);
            narrow_isize(self as u128, self as int);
        }
        #[verifier::truncate]
        (self as isize)
    }

    fn as_u128(self) -> (r: u128) {
        proof {
            widen_i128(self);
            narrow_u128(self as u128, self as int);
        }
        #[verifier::truncate]
        (self as u128)
    }

    fn as_i128(self) -> (r: i128) {
        proof {
            widen_i128(self);
            narrow_i128(self as u128, self as int);
        }
        #[verifier::truncate]
        (self as i128)
    }

    fn as_u64(self) -> (r: u64) {
        proof {
            widen_i128(self);
            narrow_u64(self as u128, self as int);
        }
        #[verifier::truncate]
        (self as u64)
    }

    fn as_i64(self) -> (r: i64) {
        proof {
            widen_i128(self);
            narrow_i64(self as u128, self as int);
        }
        #[verifier::truncate]
        (self as i64)
    }

    fn as_u32(self) -> (r: u32) {
        proof {
            widen_i128(self);
            narrow_u32(self as u128, self as int);
        }
        #[verifier::truncate]
        (self as u32)
    }

    fn as_i32(self) -> (r: i32) {
        proof {
            widen_i128(self);
            narrow_i32(self as u128, self as int);
        }
        #[verifier::truncate]
        (self as i32)
    }

    fn as_u16(self) -> (r: u16) {
        proof {
            widen_i128(self);
            narrow_u16(self as u128, self as int);
        }
        #[verifier::truncate]
        (self as u16)
    }

    fn as_i16(self) -> (r: i16) {
        proof {
            widen_i128(self);
            narrow_i16(self as u128, self as int);
        }
        #[verifier::truncate]
        (self as i16)
    }

    fn as_u8(self) -> (r: u8) {
        proof {
            widen_i128(self);
            narrow_u8(self as u128, self as int);
        }
        #[verifier::truncate]
        (self as u8)
    }

    fn as_i8(self) -> (r: i8) {
        proof {
            widen_i128(self);
            narrow_i8(self as u128, self as int);
        }
        #[verifier::truncate]
        (self as i8)
    }
}

impl CastFrom for i128 {
    fn cast_from<S: AsPrim>(x: S) -> (r: Self) {
        x.as_i128()
    }
}

impl AsPrim for u64 {
    open spec fn value(self) -> int {
        self as int
    }

    open spec fn modulus() -> int {
        0x1_0000_0000_0000_0000
    }

    open spec fn is_signed() -> bool {
        false
    }

    proof fn lemma_modulus() {
    }

    proof fn lemma_value(self) {
    }

    proof fn lemma_value_injective(self, other: Self) {
    }

    fn as_usize(self) -> (r: usize) {
        proof {
            widen_u64(self);
            narrow_usize(self as u128, self as int);
        }
        #[verifier::truncate]
        (self as usize)
    }

    fn as_isize(self) -> (r: isize) {
        proof {
            widen_u64(self);
            narrow_isize(self as u128, self as int);
        }
        #[verifier::truncate]
        (self as isize)
    }

    fn as_u128(self) -> (r: u128) {
        proof {
            widen_u64(self);
            narrow_u128(self as u128, self as int);
        }
        #[verifier::truncate]
        (self as u128)
    }

    fn as_i128(self) -> (r: i128) {
        proof {
            widen_u64(self);
            narrow_i128(self as u128, self as int);
        }
        #[verifier::truncate]
        (self as i128)
    }

    fn as_u64(self) -> (r: u64) {
        proof {
            widen_u64(self);
            narrow_u64(self as u128, self as int);
        }
        #[verifier::truncate]
        (self as u64)
    }

    fn as_i64(self) -> (r: i64) {
        proof {
            widen_u64(self);
            narrow_i64(self as u128, self as int);
        }
        #[verifier::truncate]
        (self as i64)
    }

    fn as_u32(self) -> (r: u32) {
        proof {
            widen_u64(self);
            narrow_u32(self as u128, self as int);
        }
        #[verifier::truncate]
        (self as u32)
    }

    fn as_i32(self) -> (r: i32) {
        proof {
            widen_u64(self);
            narrow_i32(self as u128, self as int);
        }
        #[verifier::truncate]
        (self as i32)
    }

    fn as_u16(self) -> (r: u16) {
        proof {
            widen_u64(self);
            narrow_u16(self as u128, self as int);
        }
        #[verifier::truncate]
        (self as u16)
    }

    fn as_i16(self) -> (r: i16) {
        proof {
            widen_u64(self);
            narrow_i16(self as u128, self as int);
        }
        #[verifier::truncate]
        (self as i16)
    }

    fn as_u8(self) -> (r: u8) {
        proof {
            widen_u64(self);
            narrow_u8(self as u128, self as int);
        }
        #[verifier::truncate]
        (self as u8)
    }

    fn as_i8(self) -> (r: i8) {
        proof {
            widen_u64(self);
            narrow_i8(self as u128, self as int);
        }
        #[verifier::truncate]
        (self as i8)
    }
}

impl CastFrom for u64 {
    fn cast_from<S: AsPrim>(x: S) -> (r: Self) {
        x.as_u64()
    }
}

impl AsPrim for i64 {
    open spec fn value(self) -> int {
        self as int
    }

    open spec fn modulus() -> int {
        0x1_0000_0000_0000_0000
    }

    open spec fn is_signed() -> bool {
        true
    }

    proof fn lemma_modulus() {
    }

    proof fn lemma_value(self) {
    }

    proof fn lemma_value_injective(self, other: Self) {
    }

    fn as_usize(self) -> (r: usize) {
        proof {
            widen_i64(self);
            narrow_usize(self as u128, self as int);
        }
        #[verifier::truncate]
        (self as usize)
    }

    fn as_isize(self) -> (r: isize) {
        proof {
            widen_i64(self);
            narrow_isize(self as u128, self as int);
        }
        #[verifier::truncate]
        (self as isize)
    }

    fn as_u128(self) -> (r: u128) {
        proof {
            widen_i64(self);
            narrow_u128(self as u128, self as int);
        }
        #[verifier::truncate]
        (self as u128)
    }

    fn as_i128(self) -> (r: i128) {
        proof {
            widen_i64(self);
            narrow_i128(self as u128, self as int);
        }
        #[verifier::truncate]
        (self as i128)
    }

    fn as_u64(self) -> (r: u64) {
        proof {
            widen_i64(self);
            narrow_u64(self as u128, self as int);
        }
        #[verifier::truncate]
        (self as u64)
    }

    fn as_i64(self) -> (r: i64) {
        proof {
            widen_i64(self);
            narrow_i64(self as u128, self as int);
        }
        #[verifier::truncate]
        (self as i64)
    }

    fn as_u32(self) -> (r: u32) {
        proof {
            widen_i64(self);
            narrow_u32(self as u128, self as int);
        }
        #[verifier::truncate]
        (self as u32)
    }

    fn as_i32(self) -> (r: i32) {
        proof {
            widen_i64(self);
            narrow_i32(self as u128, self as int);
        }
        #[verifier::truncate]
        (self as i32)
    }

    fn as_u16(self) -> (r: u16) {
        proof {
            widen_i64(self);
            narrow_u16(self as u128, self as int);
        }
        #[verifier::truncate]
        (self as u16)
    }

    fn as_i16(self) -> (r: i16) {
        proof {
            widen_i64(self);
            narrow_i16(self as u128, self as int);
        }
        #[verifier::truncate]
        (self as i16)
    }

    fn as_u8(self) -> (r: u8) {
        proof {
            widen_i64(self);
            narrow_u8(self as u128, self as int);
        }
        #[verifier::truncate]
        (self as u8)
    }

    fn as_i8(self) -> (r: i8) {
        proof {
            widen_i64(self);
            narrow_i8(self as u128, self as int);
        }
        #[verifier::truncate]
        (self as i8)
    }
}

impl CastFrom for i64 {
    fn cast_from<S: AsPrim>(x: S) -> (r: Self) {
        x.as_i64()
    }
}

impl AsPrim for usize {
    open spec fn value(self) -> int {
        self as int
    }

    open spec fn modulus() -> int {
        modulus_size()
    }

    open spec fn is_signed() -> bool {
        false
    }

    proof fn lemma_modulus() {
        lemma_modulus_size();
    }

    proof fn lemma_value(self) {
        lemma_modulus_size();
    }

    proof fn lemma_value_injective(self, other: Self) {
    }

    fn as_usize(self) -> (r: usize) {
        proof {
            widen_usize(self);
            narrow_usize(self as u128, self as int);
        }
        #[verifier::truncate]
        (self as usize)
    }

    fn as_isize(self) -> (r: isize) {
        proof {
            widen_usize(self);
            narrow_isize(self as u128, self as int);
        }
        #[verifier::truncate]
        (self as isize)
    }

    fn as_u128(self) -> (r: u128) {
        proof {
            widen_usize(self);
            narrow_u128(self as u128, self as int);
        }
        #[verifier::truncate]
        (self as u128)
    }

    fn as_i128(self) -> (r: i128) {
        proof {
            widen_usize(self);
            narrow_i128(self as u128, self as int);
        }
        #[verifier::truncate]
        (self as i128)
    }

    fn as_u64(self) -> (r: u64) {
        proof {
            widen_usize(self);
            narrow_u64(self as u128, self as int);
        }
        #[verifier::truncate]
        (self as u64)
    }

    fn as_i64(self) -> (r: i64) {
        proof {
            widen_usize(self);
            narrow_i64(self as u128, self as int);
        }
        #[verifier::truncate]
        (self as i64)
    }

    fn as_u32(self) -> (r: u32) {
        proof {
            widen_usize(self);
            narrow_u32(self as u128, self as int);
        }
        #[verifier::truncate]
        (self as u32)
    }

    fn as_i32(self) -> (r: i32) {
        proof {
            widen_usize(self);
            narrow_i32(self as u128, self as int);
        }
        #[verifier::truncate]
        (self as i32)
    }

    fn as_u16(self) -> (r: u16) {
        proof {
            widen_usize(self);
            narrow_u16(self as u128, self as int);
        }
        #[verifier::truncate]
        (self as u16)
    }

    fn as_i16(self) -> (r: i16) {
        proof {
            widen_usize(self);
            narrow_i16(self as u128, self as int);
        }
        #[verifier::truncate]
        (self as i16)
    }

    fn as_u8(self) -> (r: u8) {
        proof {
            widen_usize(self);
            narrow_u8(self as u128, self as int);
        }
        #[verifier::truncate]
        (self as u8)
    }

    fn as_i8(self) -> (r: i8) {
        proof {
            widen_usize(self);
            narrow_i8(self as u128, self as int);
        }
        #[verifier::truncate]
        (self as i8)
    }
}

impl CastFrom for usize {
    fn cast_from<S: AsPrim>(x: S) -> (r: Self) {
        x.as_usize()
    }
}

impl AsPrim for isize {
    open spec fn value(self) -> int {
        self as int
    }

    open spec fn modulus() -> int {
        modulus_size()
    }

    open spec fn is_signed() -> bool {
        true
    }

    proof fn lemma_modulus() {
        lemma_modulus_size();
    }

    proof fn lemma_value(self) {
        lemma_modulus_size();
    }

    proof fn lemma_value_injective(self, other: Self) {
    }

    fn as_usize(self) -> (r: usize) {
        proof {
            widen_isize(self);
            narrow_usize(self as u128, self as int);
        }
        #[verifier::truncate]
        (self as usize)
    }

    fn as_isize(self) -> (r: isize) {
        proof {
            widen_isize(self);
            narrow_isize(self as u128, self as int);
        }
        #[verifier::truncate]
        (self as isize)
    }

    fn as_u128(self) -> (r: u128) {
        proof {
            widen_isize(self);
            narrow_u128(self as u128, self as int);
        }
        #[verifier::truncate]
        (self as u128)
    }

    fn as_i128(self) -> (r: i128) {
        proof {
            widen_isize(self);
            narrow_i128(self as u128, self as int);
        }
        #[verifier::truncate]
        (self as i128)
    }

    fn as_u64(self) -> (r: u64) {
        proof {
            widen_isize(self);
            narrow_u64(self as u128, self as int);
        }
        #[verifier::truncate]
        (self as u64)
    }

    fn as_i64(self) -> (r: i64) {
        proof {
            widen_isize(self);
            narrow_i64(self as u128, self as int);
        }
        #[verifier::truncate]
        (self as i64)
    }

    fn as_u32(self) -> (r: u32) {
        proof {
            widen_isize(self);
            narrow_u32(self as u128, self as int);
        }
        #[verifier::truncate]
        (self as u32)
    }

    fn as_i32(self) -> (r: i32) {
        proof {
            widen_isize(self);
            narrow_i32(self as u128, self as int);
        }
        #[verifier::truncate]
        (self as i32)
    }

    fn as_u16(self) -> (r: u16) {
        proof {
            widen_isize(self);
            narrow_u16(self as u128, self as int);
        }
        #[verifier::truncate]
        (self as u16)
    }

    fn as_i16(self) -> (r: i16) {
        proof {
            widen_isize(self);
            narrow_i16(self as u128, self as int);
        }
        #[verifier::truncate]
        (self as i16)
    }

    fn as_u8(self) -> (r: u8) {
        proof {
            widen_isize(self);
            narrow_u8(self as u128, self as int);
        }
        #[verifier::truncate]
        (self as u8)
    }

    fn as_i8(self) -> (r: i8) {
        proof {
            widen_isize(self);
            narrow_i8(self as u128, self as int);
        }
        #[verifier::truncate]
        (self as i8)
    }
}

impl CastFrom for isize {
    fn cast_from<S: AsPrim>(x: S) -> (r: Self) {
        x.as_isize()
    }
}

} // verus!
