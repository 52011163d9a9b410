use crate::link_type::{FuntyPart, LinkType};
use vstd::arithmetic::div_mod::{lemma_mod_add_multiples_vanish, lemma_mod_self_0, lemma_small_mod};
use vstd::prelude::*;

verus! {

/// The number of distinct values of `T`.
pub open spec fn modulus<T: LinkType>() -> nat {
    T::max_nat() + 1
}

/// The number that encodes `x` as an external address: its negation modulo the
/// size of the domain, so that `0` stays `0` and small values land at the top, near `MAX`.
pub open spec fn negated<T: LinkType>(x: nat) -> nat {
    ((modulus::<T>() - x) as nat) % modulus::<T>()
}

/// One address, read either as an internal index or as an encoded external value.
///
/// No tag is stored: whether the value is internal or external follows from its
/// magnitude alone, split at `half()`.
#[derive(Debug, Clone, Copy, Hash, PartialOrd, PartialEq, Ord, Eq)]
pub struct Hybrid<T> {
    value: T,
}

impl<T: LinkType> View for Hybrid<T> {
    type V = T;

    /// The wrapped value, as stored.
    closed spec fn view(&self) -> T {
        self.value
    }
}

impl<T: LinkType> Hybrid<T> {
    /// Wraps `value` as an internal address.
    pub fn new(value: T) -> (r: Self)
        ensures
            r@ == value,
    {
        Self::internal(value)
    }

    /// The threshold between the internal and the external half of the domain.
    pub fn half() -> (r: T)
        ensures
            r.as_nat() == T::max_nat() / 2,
    {
        T::max_value().div(T::funty(2))
    }

    /// Encodes the external value `value`.
    pub fn external(value: T) -> (r: Self)
        ensures
            r@.as_nat() == negated::<T>(value.as_nat()),
    {
        Self { value: Self::extend_value(value) }
    }

    /// Wraps `value` unchanged.
    pub fn internal(value: T) -> (r: Self)
        ensures
            r@ == value,
    {
        Self { value }
    }

    fn extend_value(value: T) -> (r: T)
        ensures
            r.as_nat() == negated::<T>(value.as_nat()),
    {
        proof {
            T::lemma_bounds(value);
        }
        let r = T::max_value().sub(value).wrapping_add(T::funty(1));
        proof {
            assert(T::max_nat() - value.as_nat() + 1 == modulus::<T>() - value.as_nat());
        }
        r
    }

    /// Whether the wrapped value is zero.
    pub fn is_zero(&self) -> (r: bool)
        ensures
            r == (self@.as_nat() == 0),
    {
        let zero = T::funty(0);
        proof {
            T::lemma_compare(self.value, zero);
        }
        self.value == zero
    }

    /// Whether the wrapped value lies below `half()`.
    pub fn is_internal(&self) -> (r: bool)
        ensures
            r == (self@.as_nat() < T::max_nat() / 2),
    {
        let half = Self::half();
        proof {
            T::lemma_compare(self.value, half);
        }
        self.value < half
    }

    /// Whether the wrapped value is not internal, or is zero.
    pub fn is_external(&self) -> (r: bool)
        ensures
            r == (self@.as_nat() >= T::max_nat() / 2 || self@.as_nat() == 0),
    {
        !self.is_internal() || self.is_zero()
    }

    /// Adds one and then `MAX` to the wrapped value, both modulo the size of the
    /// domain; together they add the whole domain, so the value comes back unchanged.
    pub fn abs(&self) -> (r: T)
        ensures
            r == self@,
    {
        let once = self.value.wrapping_add(T::funty(1));
        let r = once.wrapping_add(T::max_value());
        proof {
            let m = modulus::<T>();
            let v = self.value.as_nat();
            T::lemma_bounds(self.value);
            T::lemma_bounds(once);
            T::lemma_bounds(r);
            if v + 1 < m {
                lemma_small_mod(v + 1, m);
                lemma_mod_add_multiples_vanish(v as int, m as int);
                lemma_small_mod(v, m);
            } else {
                lemma_mod_self_0(m as int);
                lemma_small_mod(T::max_nat(), m);
            }
            T::lemma_injective(r, self.value);
        }
        r
    }

    /// The wrapped value, with no transform.
    pub fn as_inner(&self) -> (r: T)
        ensures
            r == self@,
    {
        self.value
    }
}

} // verus!
