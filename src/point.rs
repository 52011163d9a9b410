use vstd::prelude::*;
use vstd::std_specs::cmp::PartialEqSpec;

verus! {

/// Whether every part of `link` after the first equals the first.
pub open spec fn all_equal_first<T: PartialEq>(link: Seq<T>) -> bool {
    forall|i: int| 1 <= i < link.len() ==> #[trigger] link[i].eq_spec(&link[0])
}

/// Whether some part of `link` after the first equals the first.
pub open spec fn some_equal_first<T: PartialEq>(link: Seq<T>) -> bool {
    exists|i: int| 1 <= i < link.len() && #[trigger] link[i].eq_spec(&link[0])
}

/// One value repeated a number of times, held without a buffer.
pub struct Point<T> {
    index: T,
    size: usize,
}

impl<T> View for Point<T> {
    type V = Seq<T>;

    /// `size` copies of `index`.
    closed spec fn view(&self) -> Seq<T> {
        Seq::new(self.size as nat, |_i: int| self.index)
    }
}

impl<T: PartialEq> Point<T> {
    /// `size` copies of `index`.
    pub fn new(index: T, size: usize) -> (r: Self)
        ensures
            r@ == Seq::new(size as nat, |_i: int| index),
    {
        Self { index, size }
    }

    /// Whether there are no copies.
    pub fn is_empty(&self) -> (r: bool)
        ensures
            r == (self@.len() == 0),
    {
        self.len() == 0
    }

    /// The number of copies.
    pub fn len(&self) -> (r: usize)
        ensures
            r == self@.len(),
    {
        self.size
    }

    /// Whether all parts of `link` equal its first one: a link that points at itself
    /// with every part.
    pub fn is_full(link: &[T]) -> (r: bool)
        requires
            link@.len() >= 2,
        ensures
            T::obeys_eq_spec() ==> (r == all_equal_first(link@)),
    {
        let a = &link[0];
        let mut i: usize = 1;
        while i < link.len()
            invariant
                1 <= i <= link@.len(),
                a == link@[0],
                T::obeys_eq_spec() ==> forall|j: int| 1 <= j < i ==> #[trigger] link@[j].eq_spec(&link@[0]),
            decreases link@.len() - i,
        {
            if !(link[i] == *a) {
                return false;
            }
            i += 1;
        }
        true
    }

    /// Whether some part of `link` after the first equals the first one: a link that
    /// points at itself with at least one part.
    pub fn is_partial(link: &[T]) -> (r: bool)
        requires
            link@.len() >= 2,
        ensures
            T::obeys_eq_spec() ==> (r == some_equal_first(link@)),
    {
        let a = &link[0];
        let mut i: usize = 1;
        while i < link.len()
            invariant
                1 <= i <= link@.len(),
                a == link@[0],
                T::obeys_eq_spec() ==> forall|j: int| 1 <= j < i ==> !#[trigger] link@[j].eq_spec(&link@[0]),
            decreases link@.len() - i,
        {
            if link[i] == *a {
                return true;
            }
            i += 1;
        }
        false
    }

    /// The copy at `index`, or `None` past the end.
    pub fn get(&self, index: usize) -> (r: Option<&T>)
        ensures
            r == if index < self@.len() {
                Some(&self@[index as int])
            } else {
                None
            },
    {
        if index < self.len() {
            Some(&self.index)
        } else {
            None
        }
    }
}

impl<T: PartialEq + Copy> Point<T> {
    /// Hands out the copies one at a time.
    pub fn into_iter(self) -> (r: PointIter<T>)
        ensures
            r@ == self@,
    {
        PointIter { value: self.index, remaining: self.size }
    }
}

/// The copies of a `Point` that are still to come.
pub struct PointIter<T> {
    value: T,
    remaining: usize,
}

impl<T> View for PointIter<T> {
    type V = Seq<T>;

    /// `remaining` copies of `value`.
    closed spec fn view(&self) -> Seq<T> {
        Seq::new(self.remaining as nat, |_i: int| self.value)
    }
}

impl<T: Copy> PointIter<T> {
    /// The next copy, or `None` once all have been handed out.
    pub fn next(&mut self) -> (r: Option<T>)
        ensures
            old(self)@.len() == 0 ==> r is None && final(self)@ == old(self)@,
            old(self)@.len() > 0 ==> r == Some(old(self)@[0]) && final(self)@ == old(
                self,
            )@.drop_first(),
    {
        if self.remaining > 0 {
            self.remaining -= 1;
            proof {
                assert(self@ =~= old(self)@.drop_first());
            }
            Some(self.value)
        } else {
            None
        }
    }

    /// The number of copies still to come, as a lower and an upper bound.
    pub fn size_hint(&self) -> (r: (usize, Option<usize>))
        ensures
            r.0 == self@.len(),
            r.1 == Some(r.0),
    {
        (self.remaining, Some(self.remaining))
    }
}

/// A link that points at itself with every part also does so with some part.
pub proof fn lemma_full_is_partial<T: PartialEq>(link: Seq<T>)
    requires
        link.len() >= 2,
    ensures
        all_equal_first(link) ==> some_equal_first(link),
{
    if all_equal_first(link) {
        assert(link[1].eq_spec(&link[0]));
    }
}

} // verus!
