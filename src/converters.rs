use crate::hybrid::{modulus, negated, Hybrid};
use crate::link_type::{FuntyPart, LinkType};
use vstd::arithmetic::div_mod::{lemma_mod_self_0, lemma_small_mod};
use vstd::prelude::*;

verus! {

/// Turns an external address into its raw, encoded form.
#[derive(Default)]
pub struct AddrToRaw;

impl AddrToRaw {
    /// The encoded form of the external address `source`.
    pub fn convert<T: LinkType>(&self, source: T) -> (r: T)
        ensures
            r.as_nat() == negated::<T>(source.as_nat()),
    {
        Hybrid::external(source).as_inner()
    }
}

/// Turns a raw, encoded value back into the external address it stands for.
#[derive(Default)]
pub struct RawToAddr;

impl RawToAddr {
    /// The external address that the encoded value `source` stands for.
    pub fn convert<T: LinkType>(&self, source: T) -> (r: T)
        ensures
            r.as_nat() == negated::<T>(source.as_nat()),
    {
        Hybrid::external(source).abs()
    }
}

/// Decoding undoes encoding and encoding undoes decoding: for every value `x` of
/// `T`, `RawToAddr` applied to what `AddrToRaw` gives for `x` is `x`, and so is
/// `AddrToRaw` applied to what `RawToAddr` gives for `x`.
pub proof fn lemma_round_trip<T: LinkType>(x: T, there: T, back: T)
    requires
        there.as_nat() == negated::<T>(x.as_nat()),
        back.as_nat() == negated::<T>(there.as_nat()),
    ensures
        back == x,
{
    let m = modulus::<T>();
    let v = x.as_nat();
    T::lemma_bounds(x);
    if v == 0 {
        lemma_mod_self_0(m as int);
    } else {
        lemma_small_mod((m - v) as nat, m);
        lemma_small_mod(v, m);
    }
    T::lemma_injective(back, x);
}

} // verus!
