use vstd::prelude::*;

use crate::AlignedColumn;
use core::marker::PhantomData;

verus! {

/// A [`ContextualIterator`] that reads a borrowed column of elements.
///
/// The view never owns the elements; it borrows them from the external
/// storage for the duration of one combinator chain.  It is up to the
/// caller to ensure that the borrowed column covers the complete set of
/// rows for the given `Context`.
pub struct Iter<'a, C, T> {
    /// The borrowed column.
    pub elems: &'a Vec<T>,
    /// The alignment tag.
    pub marker: PhantomData<C>,
}

impl<'a, C, T> Clone for Iter<'a, C, T> {
    /// A read-only view is another borrow of the same column: the clone
    /// is the view itself.
    fn clone(&self) -> (r: Self)
        ensures
            r == *self,
    {
        Iter { elems: self.elems, marker: PhantomData }
    }
}

impl<'a, C, T> Iter<'a, C, T> {
    /// Creates a new [`Iter`] over the given column.  It is up to the
    /// caller to pick the `Context` that the column belongs to; nothing is
    /// cross-checked against other views here.
    pub fn new(elems: &'a Vec<T>) -> (r: Self)
        ensures
            r.elems@ == elems@,
    {
        Iter { elems, marker: PhantomData }
    }
}

impl<'a, C, T: Copy> AlignedColumn for Iter<'a, C, T> {
    type Context = C;

    type Item = T;

    open spec fn len_spec(&self) -> nat {
        self.elems@.len()
    }

    open spec fn wf(&self) -> bool {
        true
    }

    open spec fn produces(&self, i: int, out: T) -> bool {
        0 <= i < self.elems@.len() && out == self.elems@[i]
    }

    fn into_vec(self) -> (r: Vec<T>) {
        let mut r: Vec<T> = Vec::new();
        let mut k: usize = 0;
        while k < self.elems.len()
            invariant
                k <= self.elems@.len(),
                r@ == self.elems@.subrange(0, k as int),
            decreases self.elems@.len() - k,
        {
            r.push(self.elems[k]);
            k = k + 1;
        }
        assert(r@ =~= self.elems@);
        r
    }
}

/// A [`ContextualIterator`] that holds a column of elements exclusively.
///
/// An exclusive view takes the column by value for the duration of the
/// traversal, so no other view of the same elements can exist meanwhile;
/// the updated column is handed back by the terminal operation (see
/// [`crate::Zip::for_each_assign`]) or by
/// [`into_vec`](ContextualIterator::into_vec).
pub struct IterMut<C, T> {
    /// The exclusively held column.
    pub elems: Vec<T>,
    /// The alignment tag.
    pub marker: PhantomData<C>,
}

impl<C, T> IterMut<C, T> {
    /// Creates a new [`IterMut`] over the given column.  It is up to the
    /// caller to pick the `Context` that the column belongs to; nothing is
    /// cross-checked against other views here.
    pub fn new(elems: Vec<T>) -> (r: Self)
        ensures
            r.elems@ == elems@,
    {
        IterMut { elems, marker: PhantomData }
    }
}

impl<C, T> AlignedColumn for IterMut<C, T> {
    type Context = C;

    type Item = T;

    open spec fn len_spec(&self) -> nat {
        self.elems@.len()
    }

    open spec fn wf(&self) -> bool {
        true
    }

    open spec fn produces(&self, i: int, out: T) -> bool {
        0 <= i < self.elems@.len() && out == self.elems@[i]
    }

    fn into_vec(self) -> (r: Vec<T>) {
        self.elems
    }
}

impl<C, T> crate::FromContextualIterator<T> for IterMut<C, T> {
    type Context = C;

    open spec fn collected_from(&self, s: Seq<T>) -> bool {
        self.elems@ == s
    }

    fn from_iter<I>(iter: I) -> (r: Self)
        where I: AlignedColumn<Context = C, Item = T>,
    {
        let v = iter.into_vec();
        let r = IterMut::new(v);
        proof {
            assert(r.collected_from(v@));
        }
        r
    }
}

} // verus!
