//! The laws of the alignment contract, stated and proved once for all
//! producers: pairing is positional and stops with the shorter operand,
//! mapping applies the transformation position for position, conversion
//! is deterministic for functional chains, operator sugar equals manual
//! zip-then-map, and nested pairings flatten without losing a position.

use vstd::prelude::*;

use crate::conversion_of;
use crate::functional;
use crate::ops::Elementwise;
use crate::ops::ScalarOp;
use crate::tuple::paired;
use crate::AlignedColumn;
use crate::Iter;
use crate::IterMut;
use crate::Mapped;
use crate::Tuple;
use crate::Zip;

verus! {

/// Law: zipping two same-context producers of equal length `n` yields a
/// producer of exactly `n` positions, and the pair possible at position
/// `i` is exactly a pair of the operands' values at `i`.
pub proof fn lemma_zip_pairs<C, T, U>(z: Zip<C, T, U>, n: nat, i: int, p: (T::Item, U::Item))
    where
        T: AlignedColumn<Context = C>,
        U: AlignedColumn<Context = C>,
    requires
        z.t.len_spec() == n,
        z.u.len_spec() == n,
    ensures
        z.len_spec() == n,
        z.produces(i, p) <==> (z.t.produces(i, p.0) && z.u.produces(i, p.1)),
{
}

/// Law: a zip stops with its shorter operand; zipping a producer of
/// length three with one of length two yields exactly two positions.
pub proof fn lemma_zip_shortest_wins<C, T, U>(z: Zip<C, T, U>)
    where
        T: AlignedColumn<Context = C>,
        U: AlignedColumn<Context = C>,
    ensures
        z.len_spec() == vstd::math::min(z.t.len_spec() as int, z.u.len_spec() as int),
{
}

/// Law: a conversion of `p.map(f)`, when `f` implements the point
/// function `fs`, is the conversion of `p` with `fs` applied at every
/// position -- the transformation is applied to each element, in order,
/// exactly once.
pub proof fn lemma_map_applies<C, I, F, B>(
    m: Mapped<C, I, F, B>,
    s: Seq<I::Item>,
    r: Seq<B>,
    fs: spec_fn(I::Item) -> B,
)
    where
        I: AlignedColumn<Context = C>,
        F: Fn(I::Item) -> B,
    requires
        functional(m.inner),
        forall|x: I::Item, y: B| #[trigger] call_ensures(m.f, (x,), y) ==> y == fs(x),
        conversion_of(m.inner, s),
        conversion_of(m, r),
    ensures
        r == s.map_values(fs),
{
    assert forall|i: int| 0 <= i < r.len() implies r[i] == fs(s[i]) by {
        assert(m.produces(i, r[i]));
        let x = choose|x: I::Item|
            #[trigger] m.inner.produces(i, x) && call_ensures(m.f, (x,), r[i]);
        assert(m.inner.produces(i, s[i]));
        assert(x == s[i]);
    }
    assert(r =~= s.map_values(fs));
}

/// Law: conversion is deterministic: two conversions of one functional
/// producer are the same sequence.  (A whole chain is functional as soon
/// as its leaves are views and each transformation determines its result;
/// see the lemmas below.)
pub proof fn lemma_conversion_deterministic<P: AlignedColumn>(
    p: P,
    r1: Seq<P::Item>,
    r2: Seq<P::Item>,
)
    requires
        functional(p),
        conversion_of(p, r1),
        conversion_of(p, r2),
    ensures
        r1 == r2,
{
    assert forall|i: int| 0 <= i < r1.len() implies r1[i] == r2[i] by {
        assert(p.produces(i, r1[i]) && p.produces(i, r2[i]));
    }
    assert(r1 =~= r2);
}

/// A read-only view is functional: position `i` holds the stored element
/// and nothing else.
pub proof fn lemma_iter_functional<'a, C, T: Copy>(it: Iter<'a, C, T>)
    ensures
        functional(it),
{
}

/// An exclusive view is functional.
pub proof fn lemma_iter_mut_functional<C, T>(it: IterMut<C, T>)
    ensures
        functional(it),
{
}

/// A zip of functional producers is functional.
pub proof fn lemma_zip_functional<C, T, U>(z: Zip<C, T, U>)
    where
        T: AlignedColumn<Context = C>,
        U: AlignedColumn<Context = C>,
    requires
        functional(z.t),
        functional(z.u),
    ensures
        functional(z),
{
    assert forall|i: int, x: (T::Item, U::Item), y: (T::Item, U::Item)|
        #[trigger] z.produces(i, x) && #[trigger] z.produces(i, y) implies x == y by {
        assert(x.0 == y.0 && x.1 == y.1);
    }
}

/// A mapped producer is functional when its source is and its
/// transformation implements a point function.
pub proof fn lemma_map_functional<C, I, F, B>(m: Mapped<C, I, F, B>, fs: spec_fn(I::Item) -> B)
    where
        I: AlignedColumn<Context = C>,
        F: Fn(I::Item) -> B,
    requires
        functional(m.inner),
        forall|x: I::Item, y: B| #[trigger] call_ensures(m.f, (x,), y) ==> y == fs(x),
    ensures
        functional(m),
{
    assert forall|i: int, x: B, y: B|
        #[trigger] m.produces(i, x) && #[trigger] m.produces(i, y) implies x == y by {
        let a = choose|a: I::Item| #[trigger] m.inner.produces(i, a) && call_ensures(m.f, (a,), x);
        let b = choose|b: I::Item| #[trigger] m.inner.produces(i, b) && call_ensures(m.f, (b,), y);
        assert(a == b);
        assert(x == fs(a) && y == fs(b));
    }
}

/// An elementwise combination of functional producers is functional.
pub proof fn lemma_elementwise_functional<C, L, R, Op>(e: Elementwise<C, L, R, Op>)
    where
        L: AlignedColumn<Context = C>,
        R: AlignedColumn<Context = C>,
        Op: ScalarOp<L::Item, R::Item>,
    requires
        functional(e.l),
        functional(e.r),
    ensures
        functional(e),
{
    assert forall|i: int, x: Op::Out, y: Op::Out|
        #[trigger] e.produces(i, x) && #[trigger] e.produces(i, y) implies x == y by {
        let (a1, b1) = choose|a: L::Item, b: R::Item|
            #[trigger] e.l.produces(i, a) && #[trigger] e.r.produces(i, b) && x == Op::op_spec(
                a,
                b,
            );
        let (a2, b2) = choose|a: L::Item, b: R::Item|
            #[trigger] e.l.produces(i, a) && #[trigger] e.r.produces(i, b) && y == Op::op_spec(
                a,
                b,
            );
        assert(a1 == a2 && b1 == b2);
    }
}

/// Law: operator sugar equals manual zip-then-map.  A conversion of the
/// elementwise combination of two functional producers equals a
/// conversion of their zip mapped through any closure that implements
/// the operation's point function.
pub proof fn lemma_sugar_equals_zip_map<C, L, R, Op, G>(
    e: Elementwise<C, L, R, Op>,
    m: Mapped<C, Zip<C, L, R>, G, Op::Out>,
    s1: Seq<Op::Out>,
    s2: Seq<Op::Out>,
)
    where
        L: AlignedColumn<Context = C>,
        R: AlignedColumn<Context = C>,
        Op: ScalarOp<L::Item, R::Item>,
        G: Fn((L::Item, R::Item)) -> Op::Out,
    requires
        functional(e.l),
        functional(e.r),
        m.inner.t == e.l,
        m.inner.u == e.r,
        forall|p: (L::Item, R::Item), y: Op::Out|
            #[trigger] call_ensures(m.f, (p,), y) ==> y == Op::op_spec(p.0, p.1),
        conversion_of(e, s1),
        conversion_of(m, s2),
    ensures
        s1 == s2,
{
    assert forall|i: int| 0 <= i < s1.len() implies s1[i] == s2[i] by {
        assert(e.produces(i, s1[i]));
        assert(m.produces(i, s2[i]));
        let (a1, b1) = choose|a: L::Item, b: R::Item|
            #[trigger] e.l.produces(i, a) && #[trigger] e.r.produces(i, b) && s1[i]
                == Op::op_spec(a, b);
        let p = choose|p: (L::Item, R::Item)|
            #[trigger] m.inner.produces(i, p) && call_ensures(m.f, (p,), s2[i]);
        assert(e.l.produces(i, p.0) && e.r.produces(i, p.1));
        assert(a1 == p.0 && b1 == p.1);
        assert(s2[i] == Op::op_spec(p.0, p.1));
    }
    assert(s1 =~= s2);
}

/// Law: the positional pairing of two sequences pairs exactly the
/// elements that share a position, and has the length of the shorter
/// side.
pub proof fn lemma_paired_positions<A, B>(sa: Seq<A>, sb: Seq<B>, i: int)
    requires
        0 <= i < paired(sa, sb).len(),
    ensures
        paired(sa, sb).len() == vstd::math::min(sa.len() as int, sb.len() as int),
        paired(sa, sb)[i] == Tuple(sa[i], sb[i]),
{
}

/// Law: three same-length columns, paired two levels deep, flatten into a
/// single traversal that visits each element exactly once, at its own
/// position: step `i` carries exactly the three elements at `i`.
pub proof fn lemma_nested_pairing<A, B, D>(sa: Seq<A>, sb: Seq<B>, sc: Seq<D>, i: int)
    requires
        sa.len() == sb.len(),
        sb.len() == sc.len(),
        0 <= i < sa.len(),
    ensures
        paired(paired(sa, sb), sc).len() == sa.len(),
        paired(paired(sa, sb), sc)[i] == Tuple(Tuple(sa[i], sb[i]), sc[i]),
{
}

} // verus!
