//! Aligned iteration over the columns of a struct-of-arrays layout.
//!
//! Several independently stored sequences often form the columns of one
//! logical table: values are associated by their position within the
//! sequences.  This crate lets a caller combine (zip) and transform (map)
//! such same-length sequences positionally, while a zero-size alignment
//! tag -- the `Context` type parameter carried by every producer -- makes
//! it a type error to combine sequences of different tables, even when
//! their element types coincide.
//!
//! Implementors of [`ContextualIterator`] shall uphold that any two
//! producers of the same `Context` have the same number of items and that
//! the items are related by their position.  The operations offered by the
//! trait can never reorder, skip, duplicate or filter elements, so a chain
//! of them preserves positional alignment by construction.  The one escape
//! hatch is [`AlignedColumn::into_vec`], which hands the elements over
//! as a plain vector; from that point on alignment is no longer tracked.

use vstd::prelude::*;

mod iter;
pub mod laws;
mod map;
mod ops;
mod tuple;
mod zip;

pub use crate::iter::Iter;
pub use crate::iter::IterMut;
pub use crate::map::Mapped;
pub use crate::ops::AddOp;
pub use crate::ops::BitAndOp;
pub use crate::ops::BitOrOp;
pub use crate::ops::BitXorOp;
pub use crate::ops::DivOp;
pub use crate::ops::ElementwiseUn;
pub use crate::ops::MulOp;
pub use crate::ops::NegOp;
pub use crate::ops::NotOp;
pub use crate::ops::RemOp;
pub use crate::ops::ScalarUnOp;
pub use crate::ops::Elementwise;
pub use crate::ops::ScalarOp;
pub use crate::ops::ShlOp;
pub use crate::ops::ShrOp;
pub use crate::ops::SubOp;
pub use crate::tuple::paired;
pub use crate::tuple::IntoIter;
pub use crate::tuple::PlainSequence;
pub use crate::tuple::Tuple;
pub use crate::zip::assigned;
pub use crate::zip::combined_at;
pub use crate::zip::Zip;

verus! {

/// The specification side of an aligned producer: a column of values
/// tied to a `Context`.
///
/// The behaviour of a producer is given by three specification functions:
/// [`len_spec`](Self::len_spec) is the number of items it yields,
/// [`produces`](Self::produces) relates each position to the values the
/// producer may yield there (a relation, because a mapping closure is only
/// known through its postcondition), and [`wf`](Self::wf) says that every
/// closure held by the chain may be applied to every element that can
/// reach it.  The one executable obligation is [`into_vec`](Self::into_vec),
/// the conversion to a plain vector that ends the alignment discipline;
/// the position-preserving combinators on top of it live in
/// [`ContextualIterator`], which every `AlignedColumn` implements.
pub trait AlignedColumn: Sized {
    /// The alignment tag: a column can only be zipped with a column of
    /// the same `Context`.
    type Context;

    /// The type of the values yielded by this producer.
    type Item;

    /// How many items this producer yields.
    spec fn len_spec(&self) -> nat;

    /// Every transformation held by this chain accepts every value that
    /// can reach it.
    spec fn wf(&self) -> bool;

    /// The producer can yield `out` as its item at position `i`.
    spec fn produces(&self, i: int, out: Self::Item) -> bool;

    /// Drain this producer into a plain vector, in positional order.
    ///
    /// This is the sole boundary out of the alignment discipline: the
    /// resulting vector supports every general-purpose operation, but is
    /// no longer tied to the `Context`.
    fn into_vec(self) -> (r: Vec<Self::Item>)
        requires
            self.wf(),
        ensures
            r@.len() == self.len_spec(),
            forall|i: int| 0 <= i < self.len_spec() ==> self.produces(i, #[trigger] r@[i]),
    ;
}

/// The producer is functional: at most one value can stand at each of
/// its positions.  Views of stored columns are functional; a mapped
/// producer is functional whenever its source is and its transformation
/// determines its result (see the laws in [`crate::laws`]).
pub open spec fn functional<P: AlignedColumn>(p: P) -> bool {
    forall|i: int, x: P::Item, y: P::Item|
        #[trigger] p.produces(i, x) && #[trigger] p.produces(i, y) ==> x == y
}

/// The sequence `s` is a conversion of the producer `p`: exactly what
/// [`AlignedColumn::into_vec`] promises of its result.
pub open spec fn conversion_of<P: AlignedColumn>(p: P, s: Seq<P::Item>) -> bool {
    s.len() == p.len_spec() && forall|i: int| 0 <= i < s.len() ==> p.produces(i, #[trigger] s[i])
}

/// The position-preserving combinators over an [`AlignedColumn`].
///
/// Producers of the same `Context` stand for columns of the same logical
/// table: they have the same length, and their items correspond position
/// for position.  The operations below preserve that correspondence; they
/// are exactly the subset of general iteration operations that cannot
/// desynchronize one column from another.  Operations that could (filter,
/// skip, reorder) are deliberately absent: they become available only on
/// the plain vector that [`AlignedColumn::into_vec`] hands out, where
/// alignment is no longer claimed.
///
/// Every [`AlignedColumn`] is a `ContextualIterator` through the blanket
/// implementation below.
pub trait ContextualIterator: AlignedColumn {
    /// Pair this producer positionally with another producer of the same
    /// `Context`.  The result is again a producer of that `Context`.
    fn zip<U>(self, rhs: U) -> (r: Zip<Self::Context, Self, U>)
        where U: AlignedColumn<Context = Self::Context>,
        ensures
            r.t == self,
            r.u == rhs,
    {
        Zip::new(self, rhs)
    }

    /// Transform each item of this producer with `f`, preserving the
    /// `Context` and the position of every element.
    fn map<B, F>(self, f: F) -> (r: Mapped<Self::Context, Self, F, B>)
        where F: Fn(Self::Item) -> B,
        ensures
            r.inner == self,
            r.f == f,
    {
        Mapped::new(self, f)
    }

    /// Consume the producer and call `f` once on each item, in positional
    /// order.
    fn for_each<F>(self, f: F)
        where F: Fn(Self::Item),
        requires
            self.wf(),
            forall|i: int, x: Self::Item|
                0 <= i < self.len_spec() && #[trigger] self.produces(i, x)
                    ==> call_requires(f, (x,)),
    {
        let ghost this = self;
        let mut v = self.into_vec();
        let ghost all = v@;
        proof {
            assert(v@ =~= all.subrange(all.len() - v@.len(), all.len() as int));
        }
        while v.len() > 0
            invariant
                v@.len() <= all.len(),
                all.len() == this.len_spec(),
                v@ == all.subrange(all.len() - v@.len(), all.len() as int),
                forall|i: int| 0 <= i < all.len() ==> this.produces(i, #[trigger] all[i]),
                forall|i: int, x: Self::Item|
                    0 <= i < this.len_spec() && #[trigger] this.produces(i, x)
                        ==> call_requires(f, (x,)),
            decreases v@.len(),
        {
            let ghost at = all.len() - v@.len();
            let x = v.remove(0);
            proof {
                assert(x == all[at]);
                assert(v@ =~= all.subrange(all.len() - v@.len(), all.len() as int));
            }
            f(x);
        }
    }

    /// Collect the values of this producer into a collection that declares
    /// the same `Context`.
    fn collect<B>(self) -> (r: B)
        where B: FromContextualIterator<Self::Item, Context = Self::Context>,
        requires
            self.wf(),
        ensures
            exists|s: Seq<Self::Item>|
                s.len() == self.len_spec()
                && (forall|i: int| 0 <= i < s.len() ==> self.produces(i, #[trigger] s[i]))
                && #[trigger] r.collected_from(s),
    {
        FromContextualIterator::from_iter(self)
    }
}

impl<T: AlignedColumn> ContextualIterator for T {
}

/// A collection that can be populated from a [`ContextualIterator`] of its
/// own `Context`.
pub trait FromContextualIterator<Item>: Sized {
    /// The alignment tag of the collection: only producers of the same
    /// `Context` may be collected into it.
    type Context;

    /// The collection holds exactly the sequence `s`, in order.
    spec fn collected_from(&self, s: Seq<Item>) -> bool;

    /// Drain `iter` fully, in positional order, into a new collection.
    fn from_iter<I>(iter: I) -> (r: Self)
        where I: AlignedColumn<Context = Self::Context, Item = Item>,
        requires
            iter.wf(),
        ensures
            exists|s: Seq<Item>|
                s.len() == iter.len_spec()
                && (forall|i: int| 0 <= i < s.len() ==> iter.produces(i, #[trigger] s[i]))
                && #[trigger] r.collected_from(s),
    ;
}

} // verus!
