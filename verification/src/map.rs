use vstd::prelude::*;

use crate::AlignedColumn;
use core::marker::PhantomData;

verus! {

/// A producer that transforms the values of another producer with a
/// closure, preserving the `Context` and the position of every element.
///
/// The transformation is applied once per element, in positional order.
/// Because a closure is only known through its postcondition, the values a
/// `Mapped` may yield at a position are described by the relation
/// [`produces`](AlignedColumn::produces): `out` is possible at `i`
/// exactly when the source can yield some `x` at `i` with
/// `call_ensures(f, (x,), out)`.
pub struct Mapped<C, I, F, B> {
    /// The source producer.
    pub inner: I,
    /// The transformation applied to each element.
    pub f: F,
    /// The alignment tag, and the item type of the producer (determined
    /// by the transformation, carried so that every use of the type is
    /// fully determined by its arguments).
    pub context: PhantomData<(C, B)>,
}

impl<C, I: Clone, F: Clone, B> Clone for Mapped<C, I, F, B> {
    /// Clone the producer by cloning its source and its transformation.
    fn clone(&self) -> (r: Self)
        ensures
            vstd::pervasive::cloned::<I>(self.inner, r.inner),
            vstd::pervasive::cloned::<F>(self.f, r.f),
    {
        Mapped { inner: self.inner.clone(), f: self.f.clone(), context: PhantomData }
    }
}

impl<C, I, F, B> Mapped<C, I, F, B> {
    pub(crate) fn new(inner: I, f: F) -> (r: Self)
        ensures
            r.inner == inner,
            r.f == f,
    {
        Mapped { inner, f, context: PhantomData }
    }
}

impl<C, I, F, B> AlignedColumn for Mapped<C, I, F, B>
    where
        I: AlignedColumn<Context = C>,
        F: Fn(I::Item) -> B,
{
    type Context = C;

    type Item = B;

    open spec fn len_spec(&self) -> nat {
        self.inner.len_spec()
    }

    open spec fn wf(&self) -> bool {
        self.inner.wf()
        && forall|i: int, x: I::Item|
            0 <= i < self.inner.len_spec() && #[trigger] self.inner.produces(i, x)
                ==> call_requires(self.f, (x,))
    }

    open spec fn produces(&self, i: int, out: B) -> bool {
        exists|x: I::Item| #[trigger] self.inner.produces(i, x) && call_ensures(self.f, (x,), out)
    }

    fn into_vec(self) -> (r: Vec<B>) {
        let ghost this = self;
        let Mapped { inner, f, context: _ } = self;
        let mut v = inner.into_vec();
        let ghost src = v@;
        let mut r: Vec<B> = Vec::new();
        proof {
            assert(v@ =~= src.subrange(0, src.len() as int));
        }
        while v.len() > 0
            invariant
                src.len() == this.inner.len_spec(),
                forall|i: int| 0 <= i < src.len() ==> this.inner.produces(i, #[trigger] src[i]),
                forall|i: int, x: I::Item|
                    0 <= i < this.inner.len_spec() && #[trigger] this.inner.produces(i, x)
                        ==> call_requires(f, (x,)),
                f == this.f,
                r@.len() + v@.len() == src.len(),
                v@ == src.subrange(r@.len() as int, src.len() as int),
                forall|i: int| 0 <= i < r@.len() ==> this.produces(i, #[trigger] r@[i]),
            decreases v@.len(),
        {
            let ghost at = r@.len() as int;
            let x = v.remove(0);
            proof {
                assert(x == src[at]);
                assert(v@ =~= src.subrange(at + 1, src.len() as int));
            }
            let y = f(x);
            assert(this.produces(at, y)) by {
                assert(this.inner.produces(at, src[at]) && call_ensures(this.f, (src[at],), y));
            }
            r.push(y);
        }
        r
    }
}

} // verus!
