use contextual_iter::AlignedColumn;
use contextual_iter::ContextualIterator;
use contextual_iter::Iter;
use contextual_iter::IterMut;

#[test]
fn compiles() {
    let a = vec![1u32, 2, 3];
    let b = vec![2u32, 3, 5];

    let a = IterMut::<(), u32>::new(a)
        .zip(Iter::<(), u32>::new(&b))
        .for_each_assign(|a, b| a + b);

    assert_eq!(a, vec![3, 5, 8]);
}

#[test]
fn map() {
    let a = vec![1u32, 2, 3];
    let iter = Iter::<(), u32>::new(&a);
    let map = iter.map(|i| i * 2);

    let b = vec![2u32, 4, 6];
    let iter = Iter::<(), u32>::new(&b);

    map.zip(iter).for_each(|(a, b)| {
        assert_eq!(a, b);
    });
}

#[test]
fn exclusive_view_produces_current_values() {
    let a = vec![5u32, 6];
    let v = IterMut::<(), u32>::new(a).into_vec();
    assert_eq!(v, vec![5, 6]);
}

#[test]
fn assign_keeps_tail_beyond_shorter_side() {
    let a = vec![1u32, 2, 3];
    let b = vec![10u32, 20];
    let r = IterMut::<(), u32>::new(a)
        .zip(Iter::<(), u32>::new(&b))
        .for_each_assign(|x, y| x + y);
    assert_eq!(r, vec![11, 22, 3]);
}

#[test]
fn collect_into_exclusive_column() {
    let a = vec![1u32, 2, 3];
    let col: IterMut<(), u32> = Iter::<(), u32>::new(&a).map(|x| x * 2).collect();
    assert_eq!(col.into_vec(), vec![2, 4, 6]);
}

#[test]
fn empty_columns_zip_to_nothing() {
    let a: Vec<u32> = Vec::new();
    let b = vec![1u32];
    let v = Iter::<(), u32>::new(&a).zip(Iter::<(), u32>::new(&b)).into_vec();
    assert_eq!(v, Vec::<(u32, u32)>::new());
}
