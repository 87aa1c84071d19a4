use vstd::prelude::*;

use crate::iter::IterMut;
use crate::AlignedColumn;
use core::marker::PhantomData;

verus! {

/// The positional pairing of two producers that share one `Context`.
///
/// A `Zip` yields, at each position, the pair of the values its two
/// operands yield there.  It stops with the shorter operand; producers of
/// the same `Context` are expected to have equal length, so nothing is
/// reported when one side runs out first.
pub struct Zip<C, T, U> {
    /// The left producer.
    pub t: T,
    /// The right producer.
    pub u: U,
    /// The alignment tag.
    pub marker: PhantomData<C>,
}

impl<C, T: Clone, U: Clone> Clone for Zip<C, T, U> {
    /// Clone the pairing by cloning both operands.
    fn clone(&self) -> (r: Self)
        ensures
            vstd::pervasive::cloned::<T>(self.t, r.t),
            vstd::pervasive::cloned::<U>(self.u, r.u),
    {
        Zip { t: self.t.clone(), u: self.u.clone(), marker: PhantomData }
    }
}

impl<C, T, U> Zip<C, T, U> {
    pub(crate) fn new(t: T, u: U) -> (r: Self)
        ensures
            r.t == t,
            r.u == u,
    {
        Zip { t, u, marker: PhantomData }
    }
}

impl<C, T, U> AlignedColumn for Zip<C, T, U>
    where
        T: AlignedColumn<Context = C>,
        U: AlignedColumn<Context = C>,
{
    type Context = C;

    type Item = (T::Item, U::Item);

    open spec fn len_spec(&self) -> nat {
        if self.t.len_spec() <= self.u.len_spec() {
            self.t.len_spec()
        } else {
            self.u.len_spec()
        }
    }

    open spec fn wf(&self) -> bool {
        self.t.wf() && self.u.wf()
    }

    open spec fn produces(&self, i: int, out: (T::Item, U::Item)) -> bool {
        self.t.produces(i, out.0) && self.u.produces(i, out.1)
    }

    fn into_vec(self) -> (r: Vec<(T::Item, U::Item)>) {
        let ghost this = self;
        let Zip { t, u, marker: _ } = self;
        let mut tv = t.into_vec();
        let mut uv = u.into_vec();
        let ghost ts = tv@;
        let ghost us = uv@;
        let mut r: Vec<(T::Item, U::Item)> = Vec::new();
        proof {
            assert(tv@ =~= ts.subrange(0, ts.len() as int));
            assert(uv@ =~= us.subrange(0, us.len() as int));
        }
        while tv.len() > 0 && uv.len() > 0
            invariant
                ts.len() == this.t.len_spec(),
                us.len() == this.u.len_spec(),
                forall|i: int| 0 <= i < ts.len() ==> this.t.produces(i, #[trigger] ts[i]),
                forall|i: int| 0 <= i < us.len() ==> this.u.produces(i, #[trigger] us[i]),
                r@.len() + tv@.len() == ts.len(),
                r@.len() + uv@.len() == us.len(),
                tv@ == ts.subrange(r@.len() as int, ts.len() as int),
                uv@ == us.subrange(r@.len() as int, us.len() as int),
                forall|i: int| 0 <= i < r@.len() ==> this.produces(i, #[trigger] r@[i]),
            decreases tv@.len(),
        {
            let ghost at = r@.len() as int;
            let a = tv.remove(0);
            let b = uv.remove(0);
            proof {
                assert(a == ts[at] && b == us[at]);
                assert(tv@ =~= ts.subrange(at + 1, ts.len() as int));
                assert(uv@ =~= us.subrange(at + 1, us.len() as int));
            }
            r.push((a, b));
        }
        assert(r@.len() == this.len_spec());
        r
    }
}

/// Position `i` was combined: some value `y` that `u` yields at `i` was
/// fed to `f` together with the old element `x`, and `out` is a result.
pub open spec fn combined_at<U: AlignedColumn, F: Fn(T, U::Item) -> T, T>(
    u: U,
    f: F,
    x: T,
    out: T,
    i: int,
) -> bool {
    exists|y: U::Item| #[trigger] u.produces(i, y) && call_ensures(f, (x, y), out)
}

/// What [`Zip::for_each_assign`] leaves behind: `after` has the length of
/// `before`; wherever the right-hand producer `u` has a value, the element
/// has been replaced by an `f`-combination of the old element and an
/// aligned value of `u`; every later position is unchanged.
pub open spec fn assigned<U: AlignedColumn, F: Fn(T, U::Item) -> T, T>(
    u: U,
    f: F,
    before: Seq<T>,
    after: Seq<T>,
) -> bool {
    &&& after.len() == before.len()
    &&& forall|i: int|
        0 <= i < after.len() && i < u.len_spec() ==> #[trigger] combined_at(
            u,
            f,
            before[i],
            after[i],
            i,
        )
    &&& forall|i: int| u.len_spec() <= i < after.len() ==> #[trigger] after[i] == before[i]
}

impl<C, T, U> Zip<C, IterMut<C, T>, U>
    where U: AlignedColumn<Context = C>,
{
    /// Terminal consumer of a pairing whose left side is an exclusive
    /// view: combine each element of the column with the aligned element
    /// of the right side through `f`, store the result in its place, and
    /// hand the updated column back.
    ///
    /// Positions beyond the shorter operand keep their old value; the two
    /// sides are expected to have equal length, as always for one
    /// `Context`.
    #[verifier::loop_isolation(false)]
    pub fn for_each_assign<F>(self, f: F) -> (r: Vec<T>)
        where F: Fn(T, U::Item) -> T,
        requires
            self.u.wf(),
            forall|i: int, y: U::Item|
                0 <= i < self.t.elems@.len() && #[trigger] self.u.produces(i, y)
                    ==> call_requires(f, (self.t.elems@[i], y)),
        ensures
            assigned(self.u, f, self.t.elems@, r@),
    {
        let ghost this = self;
        let ghost g = f;
        let Zip { t, u, marker: _ } = self;
        let IterMut { elems: mut v, marker: _ } = t;
        let mut uv = u.into_vec();
        let ghost vs = v@;
        let ghost us = uv@;
        let mut r: Vec<T> = Vec::new();
        proof {
            assert(v@ =~= vs.subrange(0, vs.len() as int));
            assert(uv@ =~= us.subrange(0, us.len() as int));
        }
        while v.len() > 0 && uv.len() > 0
            invariant
                vs == this.t.elems@,
                us.len() == this.u.len_spec(),
                forall|i: int| 0 <= i < us.len() ==> this.u.produces(i, #[trigger] us[i]),
                forall|i: int, y: U::Item|
                    0 <= i < vs.len() && #[trigger] this.u.produces(i, y)
                        ==> call_requires(g, (vs[i], y)),
                r@.len() + v@.len() == vs.len(),
                r@.len() + uv@.len() == us.len(),
                v@ == vs.subrange(r@.len() as int, vs.len() as int),
                uv@ == us.subrange(r@.len() as int, us.len() as int),
                forall|i: int|
                    0 <= i < r@.len() ==> call_ensures(g, (vs[i], us[i]), #[trigger] r@[i]),
            decreases v@.len(),
        {
            let ghost at = r@.len() as int;
            let x = v.remove(0);
            let y = uv.remove(0);
            proof {
                assert(x == vs[at] && y == us[at]);
                assert(v@ =~= vs.subrange(at + 1, vs.len() as int));
                assert(uv@ =~= us.subrange(at + 1, us.len() as int));
            }
            let z = f(x, y);
            r.push(z);
        }
        while v.len() > 0
            invariant
                vs == this.t.elems@,
                us.len() == this.u.len_spec(),
                r@.len() + v@.len() == vs.len(),
                us.len() <= r@.len() || v@.len() == 0,
                v@ == vs.subrange(r@.len() as int, vs.len() as int),
                forall|i: int|
                    0 <= i < r@.len() && i < us.len() ==> call_ensures(
                        g,
                        (vs[i], us[i]),
                        #[trigger] r@[i],
                    ),
                forall|i: int| us.len() <= i < r@.len() ==> #[trigger] r@[i] == vs[i],
            decreases v@.len(),
        {
            let ghost at = r@.len() as int;
            let x = v.remove(0);
            proof {
                assert(x == vs[at]);
                assert(v@ =~= vs.subrange(at + 1, vs.len() as int));
            }
            r.push(x);
        }
        proof {
            assert forall|i: int|
                0 <= i < r@.len() && i < this.u.len_spec() implies #[trigger] combined_at(
                this.u,
                g,
                vs[i],
                r@[i],
                i,
            ) by {
                assert(0 <= i < us.len());
                assert(this.u.produces(i, us[i]));
                assert(call_ensures(g, (vs[i], us[i]), r@[i]));
            }
            assert(assigned(this.u, g, vs, r@));
        }
        r
    }
}

} // verus!
