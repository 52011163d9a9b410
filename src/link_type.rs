use vstd::prelude::*;
use vstd::arithmetic::div_mod::{lemma_mod_sub_multiples_vanish, lemma_small_mod};
use vstd::std_specs::cmp::{PartialEqSpec, PartialOrdIs, PartialOrdSpec};

verus! {

/// Conversion of small unsigned constants into an address type.
pub trait FuntyPart: Sized {
    /// The number that a value of the type stands for.
    spec fn as_nat(&self) -> nat;

    /// The value that stands for `n`.
    fn funty(n: u8) -> (r: Self)
        ensures
            r.as_nat() == n as nat,
    ;
}

/// An unsigned integer type that can serve as an address.
///
/// Every value stands for a distinct number in `0..=max_nat()`, and the usual
/// order of those numbers is the order of the type.
pub trait LinkType: FuntyPart + Copy + PartialEq + PartialOrd + core::fmt::Debug + Send + Sync {
    /// The largest number that the type can hold.
    spec fn max_nat() -> nat;

    /// Values are bounded by `max_nat()`, which is at least that of a byte.
    proof fn lemma_bounds(x: Self)
        ensures
            x.as_nat() <= Self::max_nat(),
            Self::max_nat() >= 255,
    ;

    /// Two values that stand for the same number are the same value.
    proof fn lemma_injective(x: Self, y: Self)
        ensures
            x.as_nat() == y.as_nat() ==> x == y,
    ;

    /// `==`, `<` and `<=` on the type compare the numbers.
    proof fn lemma_compare(x: Self, y: Self)
        ensures
            Self::obeys_eq_spec(),
            Self::obeys_partial_cmp_spec(),
            x.eq_spec(&y) <==> x.as_nat() == y.as_nat(),
            x.is_lt(&y) <==> x.as_nat() < y.as_nat(),
            x.is_le(&y) <==> x.as_nat() <= y.as_nat(),
    ;

    /// The largest value of the type.
    fn max_value() -> (r: Self)
        ensures
            r.as_nat() == Self::max_nat(),
    ;

    /// Addition modulo `max_nat() + 1`.
    fn wrapping_add(self, rhs: Self) -> (r: Self)
        ensures
            r.as_nat() == (self.as_nat() + rhs.as_nat()) % (Self::max_nat() + 1),
    ;

    /// Subtraction that does not go below zero.
    fn sub(self, rhs: Self) -> (r: Self)
        requires
            rhs.as_nat() <= self.as_nat(),
        ensures
            r.as_nat() == self.as_nat() - rhs.as_nat(),
    ;

    /// Division rounded down.
    fn div(self, rhs: Self) -> (r: Self)
        requires
            rhs.as_nat() > 0,
        ensures
            r.as_nat() == self.as_nat() / rhs.as_nat(),
    ;
}

/// A sum of two numbers below `m`, taken modulo `m`, loses `m` at most once.
proof fn lemma_mod_of_sum(a: nat, b: nat, m: nat)
    requires
        a < m,
        b < m,
    ensures
        (a + b) % m == if a + b >= m {
            a + b - m
        } else {
            (a + b) as int
        },
{
    if a + b >= m {
        lemma_mod_sub_multiples_vanish((a + b) as int, m as int);
        lemma_small_mod((a + b - m) as nat, m);
    } else {
        lemma_small_mod(a + b, m);
    }
}

impl FuntyPart for u8 {
    open spec fn as_nat(&self) -> nat {
        *self as nat
    }

    fn funty(n: u8) -> (r: u8) {
        n
    }
}

impl LinkType for u8 {
    open spec fn max_nat() -> nat {
        u8::MAX as nat
    }

    proof fn lemma_bounds(x: u8) {
    }

    proof fn lemma_injective(x: u8, y: u8) {
    }

    proof fn lemma_compare(x: u8, y: u8) {
    }

    fn max_value() -> (r: u8) {
        u8::MAX
    }

    fn wrapping_add(self, rhs: u8) -> (r: u8) {
        proof {
            lemma_mod_of_sum(self as nat, rhs as nat, u8::MAX as nat + 1);
        }
        u8::wrapping_add(self, rhs)
    }

    fn sub(self, rhs: u8) -> (r: u8) {
        self - rhs
    }

    fn div(self, rhs: u8) -> (r: u8) {
        self / rhs
    }
}

impl FuntyPart for u16 {
    open spec fn as_nat(&self) -> nat {
        *self as nat
    }

    fn funty(n: u8) -> (r: u16) {
        n as u16
    }
}

impl LinkType for u16 {
    open spec fn max_nat() -> nat {
        u16::MAX as nat
    }

    proof fn lemma_bounds(x: u16) {
    }

    proof fn lemma_injective(x: u16, y: u16) {
    }

    proof fn lemma_compare(x: u16, y: u16) {
    }

    fn max_value() -> (r: u16) {
        u16::MAX
    }

    fn wrapping_add(self, rhs: u16) -> (r: u16) {
        proof {
            lemma_mod_of_sum(self as nat, rhs as nat, u16::MAX as nat + 1);
        }
        u16::wrapping_add(self, rhs)
    }

    fn sub(self, rhs: u16) -> (r: u16) {
        self - rhs
    }

    fn div(self, rhs: u16) -> (r: u16) {
        self / rhs
    }
}

impl FuntyPart for u32 {
    open spec fn as_nat(&self) -> nat {
        *self as nat
    }

    fn funty(n: u8) -> (r: u32) {
        n as u32
    }
}

impl LinkType for u32 {
    open spec fn max_nat() -> nat {
        u32::MAX as nat
    }

    proof fn lemma_bounds(x: u32) {
    }

    proof fn lemma_injective(x: u32, y: u32) {
    }

    proof fn lemma_compare(x: u32, y: u32) {
    }

    fn max_value() -> (r: u32) {
        u32::MAX
    }

    fn wrapping_add(self, rhs: u32) -> (r: u32) {
        proof {
            lemma_mod_of_sum(self as nat, rhs as nat, u32::MAX as nat + 1);
        }
        u32::wrapping_add(self, rhs)
    }

    fn sub(self, rhs: u32) -> (r: u32) {
        self - rhs
    }

    fn div(self, rhs: u32) -> (r: u32) {
        self / rhs
    }
}

impl FuntyPart for u64 {
    open spec fn as_nat(&self) -> nat {
        *self as nat
    }

    fn funty(n: u8) -> (r: u64) {
        n as u64
    }
}

impl LinkType for u64 {
    open spec fn max_nat() -> nat {
        u64::MAX as nat
    }

    proof fn lemma_bounds(x: u64) {
    }

    proof fn lemma_injective(x: u64, y: u64) {
    }

    proof fn lemma_compare(x: u64, y: u64) {
    }

    fn max_value() -> (r: u64) {
        u64::MAX
    }

    fn wrapping_add(self, rhs: u64) -> (r: u64) {
        proof {
            lemma_mod_of_sum(self as nat, rhs as nat, u64::MAX as nat + 1);
        }
        u64::wrapping_add(self, rhs)
    }

    fn sub(self, rhs: u64) -> (r: u64) {
        self - rhs
    }

    fn div(self, rhs: u64) -> (r: u64) {
        self / rhs
    }
}

impl FuntyPart for u128 {
    open spec fn as_nat(&self) -> nat {
        *self as nat
    }

    fn funty(n: u8) -> (r: u128) {
        n as u128
    }
}

impl LinkType for u128 {
    open spec fn max_nat() -> nat {
        u128::MAX as nat
    }

    proof fn lemma_bounds(x: u128) {
    }

    proof fn lemma_injective(x: u128, y: u128) {
    }

    proof fn lemma_compare(x: u128, y: u128) {
    }

    fn max_value() -> (r: u128) {
        u128::MAX
    }

    fn wrapping_add(self, rhs: u128) -> (r: u128) {
        proof {
            lemma_mod_of_sum(self as nat, rhs as nat, u128::MAX as nat + 1);
        }
        u128::wrapping_add(self, rhs)
    }

    fn sub(self, rhs: u128) -> (r: u128) {
        self - rhs
    }

    fn div(self, rhs: u128) -> (r: u128) {
        self / rhs
    }
}

impl FuntyPart for usize {
    open spec fn as_nat(&self) -> nat {
        *self as nat
    }

    fn funty(n: u8) -> (r: usize) {
        n as usize
    }
}

impl LinkType for usize {
    open spec fn max_nat() -> nat {
        usize::MAX as nat
    }

    proof fn lemma_bounds(x: usize) {
    }

    proof fn lemma_injective(x: usize, y: usize) {
    }

    proof fn lemma_compare(x: usize, y: usize) {
    }

    fn max_value() -> (r: usize) {
        usize::MAX
    }

    fn wrapping_add(self, rhs: usize) -> (r: usize) {
        proof {
            lemma_mod_of_sum(self as nat, rhs as nat, usize::MAX as nat + 1);
        }
        usize::wrapping_add(self, rhs)
    }

    fn sub(self, rhs: usize) -> (r: usize) {
        self - rhs
    }

    fn div(self, rhs: usize) -> (r: usize) {
        self / rhs
    }
}

} // verus!
