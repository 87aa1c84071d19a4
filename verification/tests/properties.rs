use std::cell::RefCell;

use contextual_iter::AlignedColumn;
use contextual_iter::ContextualIterator;
use contextual_iter::Iter;
use contextual_iter::Tuple;

#[test]
fn zip_yields_aligned_pairs() {
    let p = vec![10u32, 20, 30];
    let q = vec![7u32, 8, 9];
    let v = Iter::<(), u32>::new(&p).zip(Iter::<(), u32>::new(&q)).into_vec();
    assert_eq!(v, vec![(10, 7), (20, 8), (30, 9)]);
}

#[test]
fn map_for_each_applies_in_order_once() {
    let p = vec![1u32, 2, 3];
    let seen: RefCell<Vec<u32>> = RefCell::new(Vec::new());
    Iter::<(), u32>::new(&p).map(|x| x + 10).for_each(|y| {
        seen.borrow_mut().push(y);
    });
    assert_eq!(*seen.borrow(), vec![11, 12, 13]);
}

#[test]
fn cloned_chain_converts_identically() {
    let p = vec![1u32, 2, 3];
    let q = vec![4u32, 5, 6];
    let chain = Iter::<(), u32>::new(&p).zip(Iter::<(), u32>::new(&q)).map(|(a, b)| a * b);
    let copy = chain.clone();
    assert_eq!(chain.into_vec(), copy.into_vec());
}

#[test]
fn shortest_operand_wins() {
    let p = vec![1u32, 2, 3];
    let q = vec![9u32, 8];
    let v = Iter::<(), u32>::new(&p).zip(Iter::<(), u32>::new(&q)).into_vec();
    assert_eq!(v, vec![(1, 9), (2, 8)]);
}

#[test]
fn operator_sugar_matches_zip_map() {
    let p = vec![1u32, 2, 3];
    let q = vec![10u32, 20, 30];
    let sugar = (Iter::<(), u32>::new(&p).map(|x| x) + Iter::<(), u32>::new(&q)).into_vec();
    let manual = Iter::<(), u32>::new(&p)
        .map(|x| x)
        .zip(Iter::<(), u32>::new(&q))
        .map(|(a, b)| a + b)
        .into_vec();
    assert_eq!(sugar, manual);
    assert_eq!(sugar, vec![11, 22, 33]);
}

#[test]
fn elementwise_binary_operators() {
    let p = vec![8u32, 9, 10];
    let q = vec![2u32, 3, 5];
    let sub = (Iter::<(), u32>::new(&p).map(|x| x) - Iter::<(), u32>::new(&q)).into_vec();
    assert_eq!(sub, vec![6, 6, 5]);
    let mul = (Iter::<(), u32>::new(&p).map(|x| x) * Iter::<(), u32>::new(&q)).into_vec();
    assert_eq!(mul, vec![16, 27, 50]);
    let div = (Iter::<(), u32>::new(&p).map(|x| x) / Iter::<(), u32>::new(&q)).into_vec();
    assert_eq!(div, vec![4, 3, 2]);
    let rem = (Iter::<(), u32>::new(&p).map(|x| x) % Iter::<(), u32>::new(&q)).into_vec();
    assert_eq!(rem, vec![0, 0, 0]);
    let and = (Iter::<(), u32>::new(&p).map(|x| x) & Iter::<(), u32>::new(&q)).into_vec();
    assert_eq!(and, vec![0, 1, 0]);
    let or = (Iter::<(), u32>::new(&p).map(|x| x) | Iter::<(), u32>::new(&q)).into_vec();
    assert_eq!(or, vec![10, 11, 15]);
    let xor = (Iter::<(), u32>::new(&p).map(|x| x) ^ Iter::<(), u32>::new(&q)).into_vec();
    assert_eq!(xor, vec![10, 10, 15]);
    let shl = (Iter::<(), u32>::new(&p).map(|x| x) << Iter::<(), u32>::new(&q)).into_vec();
    assert_eq!(shl, vec![32, 72, 320]);
    let shr = (Iter::<(), u32>::new(&p).map(|x| x) >> Iter::<(), u32>::new(&q)).into_vec();
    assert_eq!(shr, vec![2, 1, 0]);
}

#[test]
fn elementwise_unary_operators() {
    let p = vec![1i32, -2, 3];
    let neg = (-Iter::<(), i32>::new(&p).map(|x| x)).into_vec();
    assert_eq!(neg, vec![-1, 2, -3]);
    let b = vec![true, false];
    let not = (!Iter::<(), bool>::new(&b).map(|x| x)).into_vec();
    assert_eq!(not, vec![false, true]);
}

#[test]
fn nested_zip_flattens_in_order() {
    let a = vec![1u32, 2, 3];
    let b = vec![4u32, 5, 6];
    let c = vec![7u32, 8, 9];
    let seen: RefCell<Vec<(u32, u32, u32)>> = RefCell::new(Vec::new());
    Tuple(Tuple(a, b), c).for_each_inner(|t: Tuple<Tuple<u32, u32>, u32>| {
        seen.borrow_mut().push((t.0 .0, t.0 .1, t.1));
    });
    assert_eq!(*seen.borrow(), vec![(1, 4, 7), (2, 5, 8), (3, 6, 9)]);
}

#[test]
fn into_iter_next_pairs_front_to_back() {
    let t = Tuple(vec![1u32, 2], vec![3u32, 4, 5]);
    let mut it = t.into_iter();
    assert_eq!(it.next(), Some(Tuple(1, 3)));
    assert_eq!(it.next(), Some(Tuple(2, 4)));
    assert_eq!(it.next(), None);
}
