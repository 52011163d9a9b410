use core::ops::Index;
use std::borrow::Cow;
use vstd::prelude::*;

verus! {

/// Relies on the `Clone` of `Cow`, which the derived `Clone` of `Query` calls;
/// nothing is assumed of the copy.
pub assume_specification<'a, B: ?Sized + ToOwned>[ <Cow<'a, B> as Clone>::clone ](
    c: &Cow<'a, B>,
) -> Cow<'a, B>;

/// The addresses that `c` holds, borrowed or owned alike.
pub open spec fn cow_items<'a, T: Clone>(c: Cow<'a, [T]>) -> Seq<T> {
    match c {
        Cow::Borrowed(b) => b@,
        Cow::Owned(v) => v@,
    }
}

/// An ordered sequence of addresses, used as a pattern or as a replacement.
///
/// It borrows the caller's addresses where it can and owns them where it must; two
/// queries are equal when their addresses are, however they hold them.
#[derive(Clone, Debug, PartialEq, Eq)]
#[verifier::reject_recursive_types(T)]
pub struct Query<'a, T: Clone>(Cow<'a, [T]>);

impl<'a, T: Clone> View for Query<'a, T> {
    type V = Seq<T>;

    /// The addresses, in order.
    closed spec fn view(&self) -> Seq<T> {
        cow_items(self.0)
    }
}

impl<'a, T: Clone> Query<'a, T> {
    /// The query that holds what `items` turns into.
    pub fn new<C>(items: C) -> (r: Self) where C: Into<Cow<'a, [T]>>
        ensures
            exists|c: Cow<'a, [T]>| call_ensures(C::into, (items,), c) && r@ == cow_items(c),
    {
        Self::from_cow(items.into())
    }

    fn from_cow(items: Cow<'a, [T]>) -> (r: Self)
        ensures
            r@ == cow_items(items),
    {
        Query(items)
    }

    /// Whether there are no addresses.
    pub fn is_empty(&self) -> (r: bool)
        ensures
            r == (self@.len() == 0),
    {
        self.len() == 0
    }

    /// The number of addresses.
    pub fn len(&self) -> (r: usize)
        ensures
            r == self@.len(),
    {
        self.as_slice().len()
    }

    /// The addresses, borrowed from the query.
    pub fn as_slice(&self) -> (r: &[T])
        ensures
            r@ == self@,
    {
        match &self.0 {
            Cow::Borrowed(b) => b,
            Cow::Owned(v) => v.as_slice(),
        }
    }

    /// The storage underneath, borrowed or owned, handed over without a copy.
    pub fn into_inner(self) -> (r: Cow<'a, [T]>)
        ensures
            cow_items(r) == self@,
    {
        self.0
    }

    /// The addresses as a vector of their own; borrowed ones are cloned, owned ones
    /// are handed over.
    pub fn into_owned(self) -> (r: Vec<T>)
        ensures
            r@.len() == self@.len(),
            forall|i: int| 0 <= i < r@.len() ==> cloned(self@[i], #[trigger] r@[i]),
    {
        match self.0 {
            Cow::Borrowed(b) => {
                let mut v: Vec<T> = Vec::new();
                v.extend_from_slice(b);
                v
            },
            Cow::Owned(v) => v,
        }
    }
}

impl<'a, T: Clone> Index<usize> for Query<'a, T> {
    type Output = T;

    fn index(&self, index: usize) -> (r: &T)
        ensures
            *r == self@[index as int],
    {
        &self.as_slice()[index]
    }
}

impl<'a, T: Clone> vstd::std_specs::core::IndexSpecImpl<usize> for Query<'a, T> {
    open spec fn index_req(&self, index: &usize) -> bool {
        *index < self@.len()
    }
}

/// Turns a sequence of addresses into a query that borrows them.
pub trait ToQuery<T: Clone> {
    fn to_query(&self) -> Query<'_, T>;
}

impl<T: Clone> ToQuery<T> for Query<'_, T> {
    fn to_query(&self) -> (r: Query<'_, T>)
        ensures
            r@ == self@,
    {
        Query::from_cow(Cow::Borrowed(self.as_slice()))
    }
}

impl<T: Clone> ToQuery<T> for [T] {
    fn to_query(&self) -> (r: Query<'_, T>)
        ensures
            r@ == self@,
    {
        Query::from_cow(Cow::Borrowed(self))
    }
}

impl<'a, T: Clone> ToQuery<T> for &'a [T] {
    fn to_query(&self) -> (r: Query<'a, T>)
        ensures
            r@ == self@,
    {
        Query::from_cow(Cow::Borrowed(*self))
    }
}

impl<T: Clone> ToQuery<T> for Vec<T> {
    fn to_query(&self) -> (r: Query<'_, T>)
        ensures
            r@ == self@,
    {
        Query::from_cow(Cow::Borrowed(self.as_slice()))
    }
}

impl<T: Clone, const L: usize> ToQuery<T> for [T; L] {
    fn to_query(&self) -> (r: Query<'_, T>)
        ensures
            r@ == self@,
    {
        Query::from_cow(Cow::Borrowed(self.as_slice()))
    }
}

} // verus!
