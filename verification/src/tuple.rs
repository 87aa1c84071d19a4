use vstd::prelude::*;

verus! {

/// An ordered pair: the item type of paired, position-aligned iteration.
///
/// Beyond carrying its two fields, a `Tuple` whose fields are themselves
/// sequences can be traversed positionally: position `i` of the traversal
/// pairs element `i` of each side (see [`Tuple::into_iter`] and
/// [`Tuple::for_each_inner`]).  That is how nested pairings of three or
/// more columns are flattened back into a single-level traversal.
#[derive(Debug, Default, Copy, Clone, Ord, PartialOrd, Eq, PartialEq, Hash)]
pub struct Tuple<A, B>(pub A, pub B);

/// A finite source of elements that can be handed over as a plain vector,
/// in order.
///
/// This is the alignment-unaware side of the library: a plain vector is
/// one, and a [`Tuple`] of two plain sequences is one again, yielding the
/// positional pairs of its sides.
pub trait PlainSequence: Sized {
    /// The type of the elements.
    type Elem;

    /// The elements, in order.
    spec fn elems(&self) -> Seq<Self::Elem>;

    /// Hand the elements over as a vector, in order.
    fn into_elems(self) -> (r: Vec<Self::Elem>)
        ensures
            r@ == self.elems(),
    ;
}

impl<T> PlainSequence for Vec<T> {
    type Elem = T;

    open spec fn elems(&self) -> Seq<T> {
        self@
    }

    fn into_elems(self) -> (r: Vec<T>) {
        self
    }
}

/// The positional pairing of two sequences: element `i` is the [`Tuple`]
/// of the elements at `i`, and the pairing stops with the shorter side.
pub open spec fn paired<A, B>(sa: Seq<A>, sb: Seq<B>) -> Seq<Tuple<A, B>> {
    Seq::new(
        if sa.len() <= sb.len() {
            sa.len()
        } else {
            sb.len()
        },
        |i: int| Tuple(sa[i], sb[i]),
    )
}

impl<A: PlainSequence, B: PlainSequence> PlainSequence for Tuple<A, B> {
    type Elem = Tuple<A::Elem, B::Elem>;

    open spec fn elems(&self) -> Seq<Tuple<A::Elem, B::Elem>> {
        paired(self.0.elems(), self.1.elems())
    }

    fn into_elems(self) -> (r: Vec<Tuple<A::Elem, B::Elem>>) {
        let ghost this = self;
        let mut va = self.0.into_elems();
        let mut vb = self.1.into_elems();
        let ghost sa = va@;
        let ghost sb = vb@;
        let mut r: Vec<Tuple<A::Elem, B::Elem>> = Vec::new();
        proof {
            assert(va@ =~= sa.subrange(0, sa.len() as int));
            assert(vb@ =~= sb.subrange(0, sb.len() as int));
            assert(r@ =~= paired(sa, sb).subrange(0, 0));
        }
        while va.len() > 0 && vb.len() > 0
            invariant
                sa == this.0.elems(),
                sb == this.1.elems(),
                r@.len() + va@.len() == sa.len(),
                r@.len() + vb@.len() == sb.len(),
                va@ == sa.subrange(r@.len() as int, sa.len() as int),
                vb@ == sb.subrange(r@.len() as int, sb.len() as int),
                r@ == paired(sa, sb).subrange(0, r@.len() as int),
            decreases va@.len(),
        {
            let ghost at = r@.len() as int;
            let x = va.remove(0);
            let y = vb.remove(0);
            proof {
                assert(x == sa[at] && y == sb[at]);
                assert(va@ =~= sa.subrange(at + 1, sa.len() as int));
                assert(vb@ =~= sb.subrange(at + 1, sb.len() as int));
            }
            r.push(Tuple(x, y));
            proof {
                assert(r@ =~= paired(sa, sb).subrange(0, r@.len() as int));
            }
        }
        proof {
            assert(r@ =~= paired(sa, sb));
        }
        r
    }
}

/// The in-order traversal of a [`Tuple`] of two sequences: each step pairs
/// the two front elements, until the shorter side runs out.
#[derive(Debug)]
pub struct IntoIter<A, B>(pub Vec<A>, pub Vec<B>);

impl<A, B> IntoIter<A, B> {
    /// Yield the pair at the front, or `None` once either side is
    /// exhausted.  Elements come out in the order of the underlying
    /// sequences, each exactly once.
    pub fn next(&mut self) -> (r: Option<Tuple<A, B>>)
        ensures
            old(self).0@.len() > 0 && old(self).1@.len() > 0 ==> r == Some(
                Tuple(old(self).0@[0], old(self).1@[0]),
            ) && final(self).0@ == old(self).0@.skip(1) && final(self).1@ == old(self).1@.skip(
                1,
            ),
            !(old(self).0@.len() > 0 && old(self).1@.len() > 0) ==> r is None && *final(self)
                == *old(self),
    {
        if self.0.len() > 0 && self.1.len() > 0 {
            let x = self.0.remove(0);
            let y = self.1.remove(0);
            proof {
                assert(self.0@ =~= old(self).0@.skip(1));
                assert(self.1@ =~= old(self).1@.skip(1));
            }
            Some(Tuple(x, y))
        } else {
            None
        }
    }
}

impl<A: PlainSequence, B: PlainSequence> Tuple<A, B> {
    /// Begin the positional traversal of a pair of sequences.
    pub fn into_iter(self) -> (r: IntoIter<A::Elem, B::Elem>)
        ensures
            r.0@ == self.0.elems(),
            r.1@ == self.1.elems(),
    {
        let Tuple(a, b) = self;
        IntoIter(a.into_elems(), b.into_elems())
    }

    /// Invoke `f` once per aligned pair of inner elements, in order: the
    /// call at step `i` receives the [`Tuple`] of element `i` of each
    /// side.  Traversal stops with the shorter side.
    pub fn for_each_inner<F>(self, f: F)
        where F: Fn(Tuple<A::Elem, B::Elem>),
        requires
            forall|i: int| 0 <= i < paired(self.0.elems(), self.1.elems()).len()
                ==> call_requires(f, (#[trigger] paired(self.0.elems(), self.1.elems())[i],)),
    {
        let ghost sa = self.0.elems();
        let ghost sb = self.1.elems();
        let mut it = self.into_iter();
        let ghost mut k: int = 0;
        while it.0.len() > 0 && it.1.len() > 0
            invariant
                0 <= k && k <= sa.len() && k <= sb.len(),
                it.0@ == sa.skip(k),
                it.1@ == sb.skip(k),
                forall|i: int| 0 <= i < paired(sa, sb).len() ==> call_requires(
                    f,
                    (#[trigger] paired(sa, sb)[i],),
                ),
            decreases sa.len() - k,
        {
            let r = it.next();
            match r {
                Some(x) => {
                    proof {
                        assert(sa.skip(k).len() > 0 && sb.skip(k).len() > 0);
                        assert(x == Tuple(sa[k], sb[k]));
                        assert(x == paired(sa, sb)[k]);
                        assert(sa.skip(k).skip(1) =~= sa.skip(k + 1));
                        assert(sb.skip(k).skip(1) =~= sb.skip(k + 1));
                        k = k + 1;
                    }
                    f(x);
                },
                None => {
                },
            }
        }
    }
}

} // verus!
