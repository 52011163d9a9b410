use crate::hybrid::Hybrid;
use crate::link_type::{FuntyPart, LinkType};
use core::ops::RangeInclusive;
use vstd::prelude::*;

verus! {

/// Relies on `RangeInclusive::start`: it returns the lower bound that the range holds.
pub assume_specification<Idx>[ RangeInclusive::<Idx>::start ](r: &RangeInclusive<Idx>) -> (s: &Idx)
    ensures
        *s == r@.start,
;

/// Relies on `RangeInclusive::end`: it returns the upper bound that the range holds.
pub assume_specification<Idx>[ RangeInclusive::<Idx>::end ](r: &RangeInclusive<Idx>) -> (e: &Idx)
    ensures
        *e == r@.end,
;

/// Relies on the `Clone` of `RangeInclusive`, which the derived `Clone` of
/// `LinksConstants` calls; nothing is assumed of the copy.
pub assume_specification<Idx: Clone>[ <RangeInclusive<Idx> as Clone>::clone ](
    r: &RangeInclusive<Idx>,
) -> RangeInclusive<Idx>;

/// Whether the number `x` lies in `r`, as `RangeInclusive::contains` decides: from the
/// start up to the end, the end itself left out once the range has been run through.
pub open spec fn range_holds<T: LinkType>(r: RangeInclusive<T>, x: nat) -> bool {
    &&& r@.start.as_nat() <= x
    &&& if r@.exhausted {
        x < r@.end.as_nat()
    } else {
        x <= r@.end.as_nat()
    }
}

/// The fixed partition of the address domain, and the reserved sentinel addresses.
///
/// The six sentinels take the six highest addresses of the internal part, from
/// `continue_` downward; `internal_range` holds what is left below them.
#[derive(Clone, Eq, PartialEq, Debug)]
pub struct LinksConstants<T: LinkType> {
    /// The part of a link that holds its own index: `0`.
    pub index_part: T,
    /// The part of a link that holds its source: `1`.
    pub source_part: T,
    /// The part of a link that holds its target.
    pub target_part: T,
    /// The absent address: zero.
    pub null: T,
    /// Go on to the next link: the top of the internal part.
    pub continue_: T,
    /// Stop the operation: one below `continue_`.
    pub break_: T,
    /// Leave this link out: two below `continue_`.
    pub skip: T,
    /// Match every value: three below `continue_`.
    pub any: T,
    /// Stand for the link's own index: four below `continue_`.
    pub itself: T,
    /// Mark a failure: five below `continue_`.
    pub error: T,
    /// The addresses of links stored here, below the sentinels.
    pub internal_range: RangeInclusive<T>,
    /// The addresses of raw external values, if the store uses any.
    pub external_range: Option<RangeInclusive<T>>,
}

impl<T: LinkType> LinksConstants<T> {
    /// Whether `x` lies in the external range; never, when there is none.
    pub open spec fn external_holds(&self, x: nat) -> bool {
        match self.external_range {
            Some(e) => range_holds(e, x),
            None => false,
        }
    }

    /// The six sentinels, in their fixed order: continue, break, skip, any, itself, error.
    pub open spec fn sentinels(&self) -> Seq<nat> {
        seq![
            self.continue_.as_nat(),
            self.break_.as_nat(),
            self.skip.as_nat(),
            self.any.as_nat(),
            self.itself.as_nat(),
            self.error.as_nat(),
        ]
    }

    /// The invariant of a set of constants: the role parts are `0` and `1`, `null` is
    /// zero, the sentinels descend one by one from `continue_`, the internal range ends
    /// just below them, and no address is both internal and external.
    pub open spec fn is_valid(&self) -> bool {
        &&& self.index_part.as_nat() == 0
        &&& self.source_part.as_nat() == 1
        &&& self.null.as_nat() == 0
        &&& self.continue_.as_nat() >= 6
        &&& self.break_.as_nat() == self.continue_.as_nat() - 1
        &&& self.skip.as_nat() == self.continue_.as_nat() - 2
        &&& self.any.as_nat() == self.continue_.as_nat() - 3
        &&& self.itself.as_nat() == self.continue_.as_nat() - 4
        &&& self.error.as_nat() == self.continue_.as_nat() - 5
        &&& !self.internal_range@.exhausted
        &&& self.internal_range@.start.as_nat() <= self.internal_range@.end.as_nat()
        &&& self.internal_range@.end.as_nat() == self.continue_.as_nat() - 6
        &&& forall|x: nat| #[trigger]
            range_holds(self.internal_range, x) ==> !self.external_holds(x)
    }

    /// The layout of the default constants: internal addresses start at `1`; the
    /// internal part ends at `half()` with external addresses from `half()` to `MAX`,
    /// or, without them, at `MAX`.
    pub open spec fn has_default_layout(&self, external: bool) -> bool {
        &&& self.internal_range@.start.as_nat() == 1
        &&& if external {
            &&& self.continue_.as_nat() == T::max_nat() / 2
            &&& self.external_range matches Some(e)
            &&& e@.start.as_nat() == T::max_nat() / 2
            &&& e@.end.as_nat() == T::max_nat()
            &&& !e@.exhausted
        } else {
            &&& self.continue_.as_nat() == T::max_nat()
            &&& self.external_range is None
        }
    }

    fn default_target_part() -> (r: T)
        ensures
            r.as_nat() == 2,
    {
        T::funty(2)
    }

    /// Places the sentinels at the top of `internal` and keeps the rest of it as the
    /// internal range; `external` is kept as it is.
    pub fn full_new(
        target_part: T,
        internal: RangeInclusive<T>,
        external: Option<RangeInclusive<T>>,
    ) -> (r: Self)
        requires
            internal@.start.as_nat() + 6 <= internal@.end.as_nat(),
            external matches Some(e) ==> forall|x: nat| #[trigger]
                range_holds(e, x) ==> !(internal@.start.as_nat() <= x <= internal@.end.as_nat()
                    - 6),
        ensures
            r.is_valid(),
            r.target_part == target_part,
            r.continue_.as_nat() == internal@.end.as_nat(),
            r.internal_range@.start == internal@.start,
            r.external_range == external,
    {
        let start = *internal.start();
        let end = *internal.end();
        Self {
            index_part: T::funty(0),
            source_part: T::funty(1),
            target_part,
            null: T::funty(0),
            continue_: end,
            break_: end.sub(T::funty(1)),
            skip: end.sub(T::funty(2)),
            any: end.sub(T::funty(3)),
            itself: end.sub(T::funty(4)),
            error: end.sub(T::funty(5)),
            internal_range: start..=end.sub(T::funty(6)),
            external_range: external,
        }
    }

    /// The default constants, with `target_part` given, and external addresses on or off.
    pub fn via_external(target_part: T, external: bool) -> (r: Self)
        ensures
            r.is_valid(),
            r.has_default_layout(external),
            r.target_part == target_part,
    {
        let internal = Self::default_internal(external);
        proof {
            T::lemma_bounds(target_part);
        }
        Self::full_new(target_part, internal, Self::default_external(external))
    }

    /// The constants for the given ranges, with the default target part `2`.
    pub fn via_ranges(internal: RangeInclusive<T>, external: Option<RangeInclusive<T>>) -> (r: Self)
        requires
            internal@.start.as_nat() + 6 <= internal@.end.as_nat(),
            external matches Some(e) ==> forall|x: nat| #[trigger]
                range_holds(e, x) ==> !(internal@.start.as_nat() <= x <= internal@.end.as_nat()
                    - 6),
        ensures
            r.is_valid(),
            r.target_part.as_nat() == 2,
            r.continue_.as_nat() == internal@.end.as_nat(),
            r.internal_range@.start == internal@.start,
            r.external_range == external,
    {
        Self::full_new(Self::default_target_part(), internal, external)
    }

    /// The default constants with the default target part `2`.
    pub fn via_only_external(external: bool) -> (r: Self)
        ensures
            r.is_valid(),
            r.has_default_layout(external),
            r.target_part.as_nat() == 2,
    {
        Self::via_external(Self::default_target_part(), external)
    }

    /// The default constants with external addresses.
    pub fn external() -> (r: Self)
        ensures
            r.is_valid(),
            r.has_default_layout(true),
            r.target_part.as_nat() == 2,
    {
        Self::via_only_external(true)
    }

    /// The default constants without external addresses.
    pub fn internal() -> (r: Self)
        ensures
            r.is_valid(),
            r.has_default_layout(false),
            r.target_part.as_nat() == 2,
    {
        Self::via_only_external(false)
    }

    /// The same as `internal()`.
    pub fn new() -> (r: Self)
        ensures
            r.is_valid(),
            r.has_default_layout(false),
            r.target_part.as_nat() == 2,
    {
        Self::internal()
    }

    fn default_internal(external: bool) -> (r: RangeInclusive<T>)
        ensures
            r@.start.as_nat() == 1,
            r@.end.as_nat() == if external {
                T::max_nat() / 2
            } else {
                T::max_nat()
            },
            !r@.exhausted,
    {
        if external {
            T::funty(1)..=Hybrid::half()
        } else {
            T::funty(1)..=T::max_value()
        }
    }

    fn default_external(external: bool) -> (r: Option<RangeInclusive<T>>)
        ensures
            external ==> (r matches Some(e) && e@.start.as_nat() == T::max_nat() / 2
                && e@.end.as_nat() == T::max_nat() && !e@.exhausted),
            !external ==> r is None,
    {
        if external {
            Some(Hybrid::half()..=T::max_value())
        } else {
            None
        }
    }

    /// Whether `address` lies in the internal range.
    pub fn is_internal(&self, address: T) -> (r: bool)
        ensures
            r == range_holds(self.internal_range, address.as_nat()),
    {
        proof {
            T::lemma_compare(self.internal_range@.start, address);
            T::lemma_compare(address, self.internal_range@.end);
        }
        self.internal_range.contains(&address)
    }

    /// Whether `address` lies in the external range; `false` when there is none.
    pub fn is_external(&self, address: T) -> (r: bool)
        ensures
            r == self.external_holds(address.as_nat()),
    {
        match &self.external_range {
            Some(range) => {
                proof {
                    T::lemma_compare(range@.start, address);
                    T::lemma_compare(address, range@.end);
                }
                range.contains(&address)
            },
            None => false,
        }
    }

    /// Whether `address` is internal or external.
    pub fn is_reference(&self, address: T) -> (r: bool)
        ensures
            r == (range_holds(self.internal_range, address.as_nat()) || self.external_holds(
                address.as_nat(),
            )),
    {
        self.is_internal(address) || self.is_external(address)
    }
}

/// In valid constants whose external range holds none of the sentinels, the six
/// sentinels are six different addresses, none of them internal, and no address is
/// both internal and external: sentinels, internal range and external range do not
/// overlap.
pub proof fn lemma_sentinels_disjoint<T: LinkType>(c: LinksConstants<T>)
    requires
        c.is_valid(),
        forall|i: int| 0 <= i < 6 ==> !c.external_holds(#[trigger] c.sentinels()[i]),
    ensures
        c.sentinels().no_duplicates(),
        forall|i: int| 0 <= i < 6 ==> !range_holds(c.internal_range, #[trigger] c.sentinels()[i]),
        forall|i: int| 0 <= i < 6 ==> !c.external_holds(#[trigger] c.sentinels()[i]),
        forall|x: nat| #[trigger] range_holds(c.internal_range, x) ==> !c.external_holds(x),
{
    assert(c.sentinels().no_duplicates());
}

/// With the default external layout, the internal range, the external range and the
/// sentinels together cover exactly the addresses from `1` to `MAX`.
pub proof fn lemma_external_partition<T: LinkType>(c: LinksConstants<T>)
    requires
        c.is_valid(),
        c.has_default_layout(true),
    ensures
        forall|x: nat|
            #![trigger range_holds(c.internal_range, x)]
            #![trigger c.external_holds(x)]
            #![trigger c.sentinels().contains(x)]
            (1 <= x <= T::max_nat()) <==> (range_holds(c.internal_range, x) || c.external_holds(x)
                || c.sentinels().contains(x)),
{
    T::lemma_bounds(c.null);
    let top = c.continue_.as_nat();
    assert forall|x: nat|
        #![trigger range_holds(c.internal_range, x)]
        #![trigger c.external_holds(x)]
        #![trigger c.sentinels().contains(x)]
        (1 <= x <= T::max_nat()) <==> (range_holds(c.internal_range, x) || c.external_holds(x)
            || c.sentinels().contains(x)) by {
        if top - 5 <= x <= top {
            assert(c.sentinels()[(top - x) as int] == x);
        }
        if c.sentinels().contains(x) {
            let i = choose|i: int| 0 <= i < 6 && c.sentinels()[i] == x;
            assert(c.sentinels()[i] == x);
        }
    }
}

impl<T: LinkType> Default for LinksConstants<T> {
    fn default() -> (r: Self)
        ensures
            r.is_valid(),
            r.has_default_layout(false),
            r.target_part.as_nat() == 2,
    {
        Self::new()
    }
}

} // verus!
