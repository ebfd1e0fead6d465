//! The unsigned integer types that can hold a register's raw contents.
use vstd::prelude::*;

verus! {

/// An unsigned integer type of 8, 16, 32 or 64 bits that holds a register.
///
/// Every value is seen in contracts as its bit pattern zero-extended to
/// 64 bits, so that one set of specifications covers all four widths.
pub trait RegisterType: Copy + Sized {
    /// The bit pattern of the value, zero-extended to 64 bits.
    spec fn bits(self) -> u64;

    /// The number of bits of the type.
    spec fn width() -> u64;

    /// The pattern with every bit of the type set.
    spec fn ones() -> u64;

    /// The value of the type whose bit pattern is `v`, where one is.
    spec fn of_bits(v: u64) -> Self;

    /// The width is one of the four register widths, and `ones` has exactly
    /// that many low bits set.
    proof fn lemma_shape()
        ensures
            (Self::width() == 8 && Self::ones() == 0xff) || (Self::width() == 16
                && Self::ones() == 0xffff) || (Self::width() == 32 && Self::ones()
                == 0xffff_ffff) || (Self::width() == 64 && Self::ones()
                == 0xffff_ffff_ffff_ffff),
    ;

    /// Every value's bit pattern fits the type's width.
    proof fn lemma_fits(x: Self)
        ensures
            x.bits() <= Self::ones(),
    ;

    /// The bit pattern, zero-extended to 64 bits.
    fn to_bits(self) -> (r: u64)
        ensures
            r == self.bits(),
    ;

    /// The value whose bit pattern is `v`.
    fn from_bits(v: u64) -> (r: Self)
        requires
            v <= Self::ones(),
        ensures
            r.bits() == v,
            r == Self::of_bits(v),
    ;

    /// The number of bits of the type.
    fn width_bits() -> (r: u64)
        ensures
            r == Self::width(),
    ;

    /// The pattern with every bit of the type set.
    fn all_ones() -> (r: u64)
        ensures
            r == Self::ones(),
    ;
}

impl RegisterType for u8 {
    open spec fn of_bits(v: u64) -> Self {
        v as u8
    }

    open spec fn bits(self) -> u64 {
        self as u64
    }

    open spec fn width() -> u64 {
        8
    }

    open spec fn ones() -> u64 {
        0xff
    }

    proof fn lemma_shape() {
    }

    proof fn lemma_fits(x: Self) {
    }

    fn to_bits(self) -> (r: u64) {
        self as u64
    }

    fn from_bits(v: u64) -> (r: Self) {
        v as u8
    }

    fn width_bits() -> (r: u64) {
        8
    }

    fn all_ones() -> (r: u64) {
        0xff
    }
}

impl RegisterType for u16 {
    open spec fn of_bits(v: u64) -> Self {
        v as u16
    }

    open spec fn bits(self) -> u64 {
        self as u64
    }

    open spec fn width() -> u64 {
        16
    }

    open spec fn ones() -> u64 {
        0xffff
    }

    proof fn lemma_shape() {
    }

    proof fn lemma_fits(x: Self) {
    }

    fn to_bits(self) -> (r: u64) {
        self as u64
    }

    fn from_bits(v: u64) -> (r: Self) {
        v as u16
    }

    fn width_bits() -> (r: u64) {
        16
    }

    fn all_ones() -> (r: u64) {
        0xffff
    }
}

impl RegisterType for u32 {
    open spec fn of_bits(v: u64) -> Self {
        v as u32
    }

    open spec fn bits(self) -> u64 {
        self as u64
    }

    open spec fn width() -> u64 {
        32
    }

    open spec fn ones() -> u64 {
        0xffff_ffff
    }

    proof fn lemma_shape() {
    }

    proof fn lemma_fits(x: Self) {
    }

    fn to_bits(self) -> (r: u64) {
        self as u64
    }

    fn from_bits(v: u64) -> (r: Self) {
        v as u32
    }

    fn width_bits() -> (r: u64) {
        32
    }

    fn all_ones() -> (r: u64) {
        0xffff_ffff
    }
}

impl RegisterType for u64 {
    open spec fn of_bits(v: u64) -> Self {
        v
    }

    open spec fn bits(self) -> u64 {
        self
    }

    open spec fn width() -> u64 {
        64
    }

    open spec fn ones() -> u64 {
        0xffff_ffff_ffff_ffff
    }

    proof fn lemma_shape() {
    }

    proof fn lemma_fits(x: Self) {
    }

    fn to_bits(self) -> (r: u64) {
        self
    }

    fn from_bits(v: u64) -> (r: Self) {
        v
    }

    fn width_bits() -> (r: u64) {
        64
    }

    fn all_ones() -> (r: u64) {
        0xffff_ffff_ffff_ffff
    }
}

} // verus!
