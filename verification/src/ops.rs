use vstd::prelude::*;

use crate::AlignedColumn;
use crate::Mapped;
use core::marker::PhantomData;

verus! {

/// A scalar binary operation that can be lifted elementwise over two
/// aligned columns.
///
/// An implementor is a zero-size selector (one per operator); the
/// operation itself is described by [`op_req`](Self::op_req) (when it may
/// be applied) and [`op_spec`](Self::op_spec) (its value), and performed
/// by [`apply`](Self::apply).
pub trait ScalarOp<A, B>: Sized {
    /// The result type of the operation.
    type Out;

    /// The operation may be applied to `a` and `b` (for the integer
    /// operators: no overflow, no division by zero).
    spec fn op_req(a: A, b: B) -> bool;

    /// The value of the operation on `a` and `b`.
    spec fn op_spec(a: A, b: B) -> Self::Out;

    /// Apply the operation to one pair of scalars.
    fn apply(a: A, b: B) -> (r: Self::Out)
        requires
            Self::op_req(a, b),
        ensures
            r == Self::op_spec(a, b),
    ;
}

/// Elementwise addition.
pub struct AddOp;

impl<A, B> ScalarOp<A, B> for AddOp
    where A: vstd::std_specs::ops::AddSpec<B>,
{
    type Out = <A as core::ops::Add<B>>::Output;

    open spec fn op_req(a: A, b: B) -> bool {
        A::obeys_add_spec() && a.add_req(b)
    }

    open spec fn op_spec(a: A, b: B) -> Self::Out {
        a.add_spec(b)
    }

    fn apply(a: A, b: B) -> (r: Self::Out) {
        a + b
    }
}

/// Elementwise subtraction.
pub struct SubOp;

impl<A, B> ScalarOp<A, B> for SubOp
    where A: vstd::std_specs::ops::SubSpec<B>,
{
    type Out = <A as core::ops::Sub<B>>::Output;

    open spec fn op_req(a: A, b: B) -> bool {
        A::obeys_sub_spec() && a.sub_req(b)
    }

    open spec fn op_spec(a: A, b: B) -> Self::Out {
        a.sub_spec(b)
    }

    fn apply(a: A, b: B) -> (r: Self::Out) {
        a - b
    }
}

/// Elementwise multiplication.
pub struct MulOp;

impl<A, B> ScalarOp<A, B> for MulOp
    where A: vstd::std_specs::ops::MulSpec<B>,
{
    type Out = <A as core::ops::Mul<B>>::Output;

    open spec fn op_req(a: A, b: B) -> bool {
        A::obeys_mul_spec() && a.mul_req(b)
    }

    open spec fn op_spec(a: A, b: B) -> Self::Out {
        a.mul_spec(b)
    }

    fn apply(a: A, b: B) -> (r: Self::Out) {
        a * b
    }
}

/// Elementwise division.
pub struct DivOp;

impl<A, B> ScalarOp<A, B> for DivOp
    where A: vstd::std_specs::ops::DivSpec<B>,
{
    type Out = <A as core::ops::Div<B>>::Output;

    open spec fn op_req(a: A, b: B) -> bool {
        A::obeys_div_spec() && a.div_req(b)
    }

    open spec fn op_spec(a: A, b: B) -> Self::Out {
        a.div_spec(b)
    }

    fn apply(a: A, b: B) -> (r: Self::Out) {
        a / b
    }
}

/// Elementwise remainder.
pub struct RemOp;

impl<A, B> ScalarOp<A, B> for RemOp
    where A: vstd::std_specs::ops::RemSpec<B>,
{
    type Out = <A as core::ops::Rem<B>>::Output;

    open spec fn op_req(a: A, b: B) -> bool {
        A::obeys_rem_spec() && a.rem_req(b)
    }

    open spec fn op_spec(a: A, b: B) -> Self::Out {
        a.rem_spec(b)
    }

    fn apply(a: A, b: B) -> (r: Self::Out) {
        a % b
    }
}

/// Elementwise left shift.
pub struct ShlOp;

impl<A, B> ScalarOp<A, B> for ShlOp
    where A: vstd::std_specs::ops::ShlSpec<B>,
{
    type Out = <A as core::ops::Shl<B>>::Output;

    open spec fn op_req(a: A, b: B) -> bool {
        A::obeys_shl_spec() && a.shl_req(b)
    }

    open spec fn op_spec(a: A, b: B) -> Self::Out {
        a.shl_spec(b)
    }

    fn apply(a: A, b: B) -> (r: Self::Out) {
        a << b
    }
}

/// Elementwise right shift.
pub struct ShrOp;

impl<A, B> ScalarOp<A, B> for ShrOp
    where A: vstd::std_specs::ops::ShrSpec<B>,
{
    type Out = <A as core::ops::Shr<B>>::Output;

    open spec fn op_req(a: A, b: B) -> bool {
        A::obeys_shr_spec() && a.shr_req(b)
    }

    open spec fn op_spec(a: A, b: B) -> Self::Out {
        a.shr_spec(b)
    }

    fn apply(a: A, b: B) -> (r: Self::Out) {
        a >> b
    }
}

/// Elementwise bitwise and.
pub struct BitAndOp;

impl<A, B> ScalarOp<A, B> for BitAndOp
    where A: vstd::std_specs::ops::BitAndSpec<B>,
{
    type Out = <A as core::ops::BitAnd<B>>::Output;

    open spec fn op_req(a: A, b: B) -> bool {
        A::obeys_bitand_spec() && a.bitand_req(b)
    }

    open spec fn op_spec(a: A, b: B) -> Self::Out {
        a.bitand_spec(b)
    }

    fn apply(a: A, b: B) -> (r: Self::Out) {
        a & b
    }
}

/// Elementwise bitwise or.
pub struct BitOrOp;

impl<A, B> ScalarOp<A, B> for BitOrOp
    where A: vstd::std_specs::ops::BitOrSpec<B>,
{
    type Out = <A as core::ops::BitOr<B>>::Output;

    open spec fn op_req(a: A, b: B) -> bool {
        A::obeys_bitor_spec() && a.bitor_req(b)
    }

    open spec fn op_spec(a: A, b: B) -> Self::Out {
        a.bitor_spec(b)
    }

    fn apply(a: A, b: B) -> (r: Self::Out) {
        a | b
    }
}

/// Elementwise bitwise xor.
pub struct BitXorOp;

impl<A, B> ScalarOp<A, B> for BitXorOp
    where A: vstd::std_specs::ops::BitXorSpec<B>,
{
    type Out = <A as core::ops::BitXor<B>>::Output;

    open spec fn op_req(a: A, b: B) -> bool {
        A::obeys_bitxor_spec() && a.bitxor_req(b)
    }

    open spec fn op_spec(a: A, b: B) -> Self::Out {
        a.bitxor_spec(b)
    }

    fn apply(a: A, b: B) -> (r: Self::Out) {
        a ^ b
    }
}

/// The lazy elementwise combination of two same-context producers by a
/// scalar operation: at each position it yields the operation applied to
/// the pair of values its operands yield there.  Equivalent to zipping
/// the operands and mapping the pair through the scalar operator, and
/// just as lazy: nothing is computed before the conversion to a plain
/// vector.
pub struct Elementwise<C, L, R, Op> {
    /// The left operand.
    pub l: L,
    /// The right operand.
    pub r: R,
    /// The alignment tag and the operation selector.
    pub marker: PhantomData<(C, Op)>,
}

impl<C, L, R, Op> Elementwise<C, L, R, Op> {
    pub(crate) fn new(l: L, r: R) -> (s: Self)
        ensures
            s.l == l,
            s.r == r,
    {
        Elementwise { l, r, marker: PhantomData }
    }
}

impl<C, L, R, Op> AlignedColumn for Elementwise<C, L, R, Op>
    where
        L: AlignedColumn<Context = C>,
        R: AlignedColumn<Context = C>,
        Op: ScalarOp<L::Item, R::Item>,
{
    type Context = C;

    type Item = Op::Out;

    open spec fn len_spec(&self) -> nat {
        if self.l.len_spec() <= self.r.len_spec() {
            self.l.len_spec()
        } else {
            self.r.len_spec()
        }
    }

    open spec fn wf(&self) -> bool {
        self.l.wf() && self.r.wf() && forall|i: int, a: L::Item, b: R::Item|
            0 <= i < self.len_spec() && #[trigger] self.l.produces(i, a)
                && #[trigger] self.r.produces(i, b) ==> Op::op_req(a, b)
    }

    open spec fn produces(&self, i: int, out: Op::Out) -> bool {
        exists|a: L::Item, b: R::Item|
            #[trigger] self.l.produces(i, a) && #[trigger] self.r.produces(i, b) && out
                == Op::op_spec(a, b)
    }

    fn into_vec(self) -> (r: Vec<Op::Out>) {
        let ghost this = self;
        let Elementwise { l, r, marker: _ } = self;
        let mut lv = l.into_vec();
        let mut rv = r.into_vec();
        let ghost ls = lv@;
        let ghost rs = rv@;
        let mut out: Vec<Op::Out> = Vec::new();
        proof {
            assert(lv@ =~= ls.subrange(0, ls.len() as int));
            assert(rv@ =~= rs.subrange(0, rs.len() as int));
        }
        while lv.len() > 0 && rv.len() > 0
            invariant
                ls.len() == this.l.len_spec(),
                rs.len() == this.r.len_spec(),
                forall|i: int| 0 <= i < ls.len() ==> this.l.produces(i, #[trigger] ls[i]),
                forall|i: int| 0 <= i < rs.len() ==> this.r.produces(i, #[trigger] rs[i]),
                this.wf(),
                out@.len() + lv@.len() == ls.len(),
                out@.len() + rv@.len() == rs.len(),
                lv@ == ls.subrange(out@.len() as int, ls.len() as int),
                rv@ == rs.subrange(out@.len() as int, rs.len() as int),
                forall|i: int| 0 <= i < out@.len() ==> this.produces(i, #[trigger] out@[i]),
            decreases lv@.len(),
        {
            let ghost at = out@.len() as int;
            let a = lv.remove(0);
            let b = rv.remove(0);
            proof {
                assert(a == ls[at] && b == rs[at]);
                assert(lv@ =~= ls.subrange(at + 1, ls.len() as int));
                assert(rv@ =~= rs.subrange(at + 1, rs.len() as int));
            }
            let y = Op::apply(a, b);
            out.push(y);
        }
        assert(out@.len() == this.len_spec());
        out
    }
}

impl<C, I, F, B, R> core::ops::Add<R> for Mapped<C, I, F, B>
    where
        I: AlignedColumn<Context = C>,
        F: Fn(I::Item) -> B,
        R: AlignedColumn<Context = C>,
        AddOp: ScalarOp<B, R::Item>,
{
    type Output = Elementwise<C, Mapped<C, I, F, B>, R, AddOp>;

    /// The operator sugar: `lhs + rhs` on two same-context producers is
    /// their lazy elementwise sum.
    fn add(self, rhs: R) -> Self::Output {
        Elementwise::new(self, rhs)
    }
}

impl<C, I, F, B, R> vstd::std_specs::ops::AddSpecImpl<R> for Mapped<C, I, F, B>
    where
        I: AlignedColumn<Context = C>,
        F: Fn(I::Item) -> B,
        R: AlignedColumn<Context = C>,
        AddOp: ScalarOp<B, R::Item>,
{
    open spec fn obeys_add_spec() -> bool {
        true
    }

    open spec fn add_req(self, rhs: R) -> bool {
        true
    }

    open spec fn add_spec(self, rhs: R) -> Self::Output {
        Elementwise { l: self, r: rhs, marker: PhantomData }
    }
}


impl<C, I, F, B, R> core::ops::Sub<R> for Mapped<C, I, F, B>
    where
        I: AlignedColumn<Context = C>,
        F: Fn(I::Item) -> B,
        R: AlignedColumn<Context = C>,
        SubOp: ScalarOp<B, R::Item>,
{
    type Output = Elementwise<C, Mapped<C, I, F, B>, R, SubOp>;

    /// The operator sugar: the subtraction of two same-context producers,
    /// elementwise and lazy.
    fn sub(self, rhs: R) -> Self::Output {
        Elementwise::new(self, rhs)
    }
}

impl<C, I, F, B, R> vstd::std_specs::ops::SubSpecImpl<R> for Mapped<C, I, F, B>
    where
        I: AlignedColumn<Context = C>,
        F: Fn(I::Item) -> B,
        R: AlignedColumn<Context = C>,
        SubOp: ScalarOp<B, R::Item>,
{
    open spec fn obeys_sub_spec() -> bool {
        true
    }

    open spec fn sub_req(self, rhs: R) -> bool {
        true
    }

    open spec fn sub_spec(self, rhs: R) -> Self::Output {
        Elementwise { l: self, r: rhs, marker: PhantomData }
    }
}

impl<C, I, F, B, R> core::ops::Mul<R> for Mapped<C, I, F, B>
    where
        I: AlignedColumn<Context = C>,
        F: Fn(I::Item) -> B,
        R: AlignedColumn<Context = C>,
        MulOp: ScalarOp<B, R::Item>,
{
    type Output = Elementwise<C, Mapped<C, I, F, B>, R, MulOp>;

    /// The operator sugar: the multiplication of two same-context producers,
    /// elementwise and lazy.
    fn mul(self, rhs: R) -> Self::Output {
        Elementwise::new(self, rhs)
    }
}

impl<C, I, F, B, R> vstd::std_specs::ops::MulSpecImpl<R> for Mapped<C, I, F, B>
    where
        I: AlignedColumn<Context = C>,
        F: Fn(I::Item) -> B,
        R: AlignedColumn<Context = C>,
        MulOp: ScalarOp<B, R::Item>,
{
    open spec fn obeys_mul_spec() -> bool {
        true
    }

    open spec fn mul_req(self, rhs: R) -> bool {
        true
    }

    open spec fn mul_spec(self, rhs: R) -> Self::Output {
        Elementwise { l: self, r: rhs, marker: PhantomData }
    }
}

impl<C, I, F, B, R> core::ops::Div<R> for Mapped<C, I, F, B>
    where
        I: AlignedColumn<Context = C>,
        F: Fn(I::Item) -> B,
        R: AlignedColumn<Context = C>,
        DivOp: ScalarOp<B, R::Item>,
{
    type Output = Elementwise<C, Mapped<C, I, F, B>, R, DivOp>;

    /// The operator sugar: the division of two same-context producers,
    /// elementwise and lazy.
    fn div(self, rhs: R) -> Self::Output {
        Elementwise::new(self, rhs)
    }
}

impl<C, I, F, B, R> vstd::std_specs::ops::DivSpecImpl<R> for Mapped<C, I, F, B>
    where
        I: AlignedColumn<Context = C>,
        F: Fn(I::Item) -> B,
        R: AlignedColumn<Context = C>,
        DivOp: ScalarOp<B, R::Item>,
{
    open spec fn obeys_div_spec() -> bool {
        true
    }

    open spec fn div_req(self, rhs: R) -> bool {
        true
    }

    open spec fn div_spec(self, rhs: R) -> Self::Output {
        Elementwise { l: self, r: rhs, marker: PhantomData }
    }
}

impl<C, I, F, B, R> core::ops::Rem<R> for Mapped<C, I, F, B>
    where
        I: AlignedColumn<Context = C>,
        F: Fn(I::Item) -> B,
        R: AlignedColumn<Context = C>,
        RemOp: ScalarOp<B, R::Item>,
{
    type Output = Elementwise<C, Mapped<C, I, F, B>, R, RemOp>;

    /// The operator sugar: the remainder of two same-context producers,
    /// elementwise and lazy.
    fn rem(self, rhs: R) -> Self::Output {
        Elementwise::new(self, rhs)
    }
}

impl<C, I, F, B, R> vstd::std_specs::ops::RemSpecImpl<R> for Mapped<C, I, F, B>
    where
        I: AlignedColumn<Context = C>,
        F: Fn(I::Item) -> B,
        R: AlignedColumn<Context = C>,
        RemOp: ScalarOp<B, R::Item>,
{
    open spec fn obeys_rem_spec() -> bool {
        true
    }

    open spec fn rem_req(self, rhs: R) -> bool {
        true
    }

    open spec fn rem_spec(self, rhs: R) -> Self::Output {
        Elementwise { l: self, r: rhs, marker: PhantomData }
    }
}

impl<C, I, F, B, R> core::ops::Shl<R> for Mapped<C, I, F, B>
    where
        I: AlignedColumn<Context = C>,
        F: Fn(I::Item) -> B,
        R: AlignedColumn<Context = C>,
        ShlOp: ScalarOp<B, R::Item>,
{
    type Output = Elementwise<C, Mapped<C, I, F, B>, R, ShlOp>;

    /// The operator sugar: the left shift of two same-context producers,
    /// elementwise and lazy.
    fn shl(self, rhs: R) -> Self::Output {
        Elementwise::new(self, rhs)
    }
}

impl<C, I, F, B, R> vstd::std_specs::ops::ShlSpecImpl<R> for Mapped<C, I, F, B>
    where
        I: AlignedColumn<Context = C>,
        F: Fn(I::Item) -> B,
        R: AlignedColumn<Context = C>,
        ShlOp: ScalarOp<B, R::Item>,
{
    open spec fn obeys_shl_spec() -> bool {
        true
    }

    open spec fn shl_req(self, rhs: R) -> bool {
        true
    }

    open spec fn shl_spec(self, rhs: R) -> Self::Output {
        Elementwise { l: self, r: rhs, marker: PhantomData }
    }
}

impl<C, I, F, B, R> core::ops::Shr<R> for Mapped<C, I, F, B>
    where
        I: AlignedColumn<Context = C>,
        F: Fn(I::Item) -> B,
        R: AlignedColumn<Context = C>,
        ShrOp: ScalarOp<B, R::Item>,
{
    type Output = Elementwise<C, Mapped<C, I, F, B>, R, ShrOp>;

    /// The operator sugar: the right shift of two same-context producers,
    /// elementwise and lazy.
    fn shr(self, rhs: R) -> Self::Output {
        Elementwise::new(self, rhs)
    }
}

impl<C, I, F, B, R> vstd::std_specs::ops::ShrSpecImpl<R> for Mapped<C, I, F, B>
    where
        I: AlignedColumn<Context = C>,
        F: Fn(I::Item) -> B,
        R: AlignedColumn<Context = C>,
        ShrOp: ScalarOp<B, R::Item>,
{
    open spec fn obeys_shr_spec() -> bool {
        true
    }

    open spec fn shr_req(self, rhs: R) -> bool {
        true
    }

    open spec fn shr_spec(self, rhs: R) -> Self::Output {
        Elementwise { l: self, r: rhs, marker: PhantomData }
    }
}

impl<C, I, F, B, R> core::ops::BitAnd<R> for Mapped<C, I, F, B>
    where
        I: AlignedColumn<Context = C>,
        F: Fn(I::Item) -> B,
        R: AlignedColumn<Context = C>,
        BitAndOp: ScalarOp<B, R::Item>,
{
    type Output = Elementwise<C, Mapped<C, I, F, B>, R, BitAndOp>;

    /// The operator sugar: the bitwise and of two same-context producers,
    /// elementwise and lazy.
    fn bitand(self, rhs: R) -> Self::Output {
        Elementwise::new(self, rhs)
    }
}

impl<C, I, F, B, R> vstd::std_specs::ops::BitAndSpecImpl<R> for Mapped<C, I, F, B>
    where
        I: AlignedColumn<Context = C>,
        F: Fn(I::Item) -> B,
        R: AlignedColumn<Context = C>,
        BitAndOp: ScalarOp<B, R::Item>,
{
    open spec fn obeys_bitand_spec() -> bool {
        true
    }

    open spec fn bitand_req(self, rhs: R) -> bool {
        true
    }

    open spec fn bitand_spec(self, rhs: R) -> Self::Output {
        Elementwise { l: self, r: rhs, marker: PhantomData }
    }
}

impl<C, I, F, B, R> core::ops::BitOr<R> for Mapped<C, I, F, B>
    where
        I: AlignedColumn<Context = C>,
        F: Fn(I::Item) -> B,
        R: AlignedColumn<Context = C>,
        BitOrOp: ScalarOp<B, R::Item>,
{
    type Output = Elementwise<C, Mapped<C, I, F, B>, R, BitOrOp>;

    /// The operator sugar: the bitwise or of two same-context producers,
    /// elementwise and lazy.
    fn bitor(self, rhs: R) -> Self::Output {
        Elementwise::new(self, rhs)
    }
}

impl<C, I, F, B, R> vstd::std_specs::ops::BitOrSpecImpl<R> for Mapped<C, I, F, B>
    where
        I: AlignedColumn<Context = C>,
        F: Fn(I::Item) -> B,
        R: AlignedColumn<Context = C>,
        BitOrOp: ScalarOp<B, R::Item>,
{
    open spec fn obeys_bitor_spec() -> bool {
        true
    }

    open spec fn bitor_req(self, rhs: R) -> bool {
        true
    }

    open spec fn bitor_spec(self, rhs: R) -> Self::Output {
        Elementwise { l: self, r: rhs, marker: PhantomData }
    }
}

impl<C, I, F, B, R> core::ops::BitXor<R> for Mapped<C, I, F, B>
    where
        I: AlignedColumn<Context = C>,
        F: Fn(I::Item) -> B,
        R: AlignedColumn<Context = C>,
        BitXorOp: ScalarOp<B, R::Item>,
{
    type Output = Elementwise<C, Mapped<C, I, F, B>, R, BitXorOp>;

    /// The operator sugar: the bitwise xor of two same-context producers,
    /// elementwise and lazy.
    fn bitxor(self, rhs: R) -> Self::Output {
        Elementwise::new(self, rhs)
    }
}

impl<C, I, F, B, R> vstd::std_specs::ops::BitXorSpecImpl<R> for Mapped<C, I, F, B>
    where
        I: AlignedColumn<Context = C>,
        F: Fn(I::Item) -> B,
        R: AlignedColumn<Context = C>,
        BitXorOp: ScalarOp<B, R::Item>,
{
    open spec fn obeys_bitxor_spec() -> bool {
        true
    }

    open spec fn bitxor_req(self, rhs: R) -> bool {
        true
    }

    open spec fn bitxor_spec(self, rhs: R) -> Self::Output {
        Elementwise { l: self, r: rhs, marker: PhantomData }
    }
}

/// A scalar unary operation that can be lifted elementwise over an
/// aligned column, described like [`ScalarOp`].
pub trait ScalarUnOp<A>: Sized {
    /// The result type of the operation.
    type Out;

    /// The operation may be applied to `a` (for integer negation: no
    /// overflow).
    spec fn un_req(a: A) -> bool;

    /// The value of the operation on `a`.
    spec fn un_spec(a: A) -> Self::Out;

    /// Apply the operation to one scalar.
    fn apply_un(a: A) -> (r: Self::Out)
        requires
            Self::un_req(a),
        ensures
            r == Self::un_spec(a),
    ;
}

/// Elementwise negation.
pub struct NegOp;

impl<A> ScalarUnOp<A> for NegOp
    where A: vstd::std_specs::ops::NegSpec,
{
    type Out = <A as core::ops::Neg>::Output;

    open spec fn un_req(a: A) -> bool {
        A::obeys_neg_spec() && a.neg_req()
    }

    open spec fn un_spec(a: A) -> Self::Out {
        a.neg_spec()
    }

    fn apply_un(a: A) -> (r: Self::Out) {
        a.neg()
    }
}

/// Elementwise logical or bitwise not.
pub struct NotOp;

impl<A> ScalarUnOp<A> for NotOp
    where A: vstd::std_specs::ops::NotSpec,
{
    type Out = <A as core::ops::Not>::Output;

    open spec fn un_req(a: A) -> bool {
        A::obeys_not_spec() && a.not_req()
    }

    open spec fn un_spec(a: A) -> Self::Out {
        a.not_spec()
    }

    fn apply_un(a: A) -> (r: Self::Out) {
        a.not()
    }
}

/// The lazy elementwise application of a scalar unary operation to one
/// producer, preserving the `Context` and every position.
pub struct ElementwiseUn<C, I, Op> {
    /// The operand.
    pub inner: I,
    /// The alignment tag and the operation selector.
    pub marker: PhantomData<(C, Op)>,
}

impl<C, I, Op> ElementwiseUn<C, I, Op> {
    pub(crate) fn new(inner: I) -> (s: Self)
        ensures
            s.inner == inner,
    {
        ElementwiseUn { inner, marker: PhantomData }
    }
}

impl<C, I, Op> AlignedColumn for ElementwiseUn<C, I, Op>
    where
        I: AlignedColumn<Context = C>,
        Op: ScalarUnOp<I::Item>,
{
    type Context = C;

    type Item = Op::Out;

    open spec fn len_spec(&self) -> nat {
        self.inner.len_spec()
    }

    open spec fn wf(&self) -> bool {
        self.inner.wf() && forall|i: int, a: I::Item|
            0 <= i < self.inner.len_spec() && #[trigger] self.inner.produces(i, a)
                ==> Op::un_req(a)
    }

    open spec fn produces(&self, i: int, out: Op::Out) -> bool {
        exists|a: I::Item| #[trigger] self.inner.produces(i, a) && out == Op::un_spec(a)
    }

    fn into_vec(self) -> (r: Vec<Op::Out>) {
        let ghost this = self;
        let ElementwiseUn { inner, marker: _ } = self;
        let mut v = inner.into_vec();
        let ghost src = v@;
        let mut out: Vec<Op::Out> = Vec::new();
        proof {
            assert(v@ =~= src.subrange(0, src.len() as int));
        }
        while v.len() > 0
            invariant
                src.len() == this.inner.len_spec(),
                forall|i: int| 0 <= i < src.len() ==> this.inner.produces(i, #[trigger] src[i]),
                this.wf(),
                out@.len() + v@.len() == src.len(),
                v@ == src.subrange(out@.len() as int, src.len() as int),
                forall|i: int| 0 <= i < out@.len() ==> this.produces(i, #[trigger] out@[i]),
            decreases v@.len(),
        {
            let ghost at = out@.len() as int;
            let a = v.remove(0);
            proof {
                assert(a == src[at]);
                assert(v@ =~= src.subrange(at + 1, src.len() as int));
            }
            let y = Op::apply_un(a);
            out.push(y);
        }
        out
    }
}

impl<C, I, F, B> core::ops::Neg for Mapped<C, I, F, B>
    where
        I: AlignedColumn<Context = C>,
        F: Fn(I::Item) -> B,
        NegOp: ScalarUnOp<B>,
{
    type Output = ElementwiseUn<C, Mapped<C, I, F, B>, NegOp>;

    /// The operator sugar: the elementwise negation of a producer, lazy.
    fn neg(self) -> Self::Output {
        ElementwiseUn::new(self)
    }
}

impl<C, I, F, B> vstd::std_specs::ops::NegSpecImpl for Mapped<C, I, F, B>
    where
        I: AlignedColumn<Context = C>,
        F: Fn(I::Item) -> B,
        NegOp: ScalarUnOp<B>,
{
    open spec fn obeys_neg_spec() -> bool {
        true
    }

    open spec fn neg_req(self) -> bool {
        true
    }

    open spec fn neg_spec(self) -> Self::Output {
        ElementwiseUn { inner: self, marker: PhantomData }
    }
}

impl<C, I, F, B> core::ops::Not for Mapped<C, I, F, B>
    where
        I: AlignedColumn<Context = C>,
        F: Fn(I::Item) -> B,
        NotOp: ScalarUnOp<B>,
{
    type Output = ElementwiseUn<C, Mapped<C, I, F, B>, NotOp>;

    /// The operator sugar: the elementwise not of a producer, lazy.
    fn not(self) -> Self::Output {
        ElementwiseUn::new(self)
    }
}

impl<C, I, F, B> vstd::std_specs::ops::NotSpecImpl for Mapped<C, I, F, B>
    where
        I: AlignedColumn<Context = C>,
        F: Fn(I::Item) -> B,
        NotOp: ScalarUnOp<B>,
{
    open spec fn obeys_not_spec() -> bool {
        true
    }

    open spec fn not_req(self) -> bool {
        true
    }

    open spec fn not_spec(self) -> Self::Output {
        ElementwiseUn { inner: self, marker: PhantomData }
    }
}

} // verus!
