use growvec::vec::{IndexOutOfBounds, Vector, INITIAL_CAPACITY};

#[test]
fn push() {
    let mut vec = Vector::new();
    vec.push(15);
    vec.push(12);
    assert_eq!(15, *vec.get_index(0).unwrap());
    assert_eq!(12, *vec.get_index(1).unwrap());
}

#[test]
fn pop() {
    let mut vec = Vector::new();
    vec.push(15);
    assert_eq!(15, vec.pop().unwrap());
    if let Some(_) = vec.pop() {
        panic!("Error occured during `pop` test");
    }
}

#[test]
fn remove() {
    let mut vec = Vector::new();
    vec.push(15);
    vec.push(17);
    vec.push(19);
    vec.push(20);
    vec.push(21);
    vec.push(22);
    vec.remove(4).unwrap();
    assert_eq!(22, *vec.get_index(4).unwrap());
}

#[test]
fn out_of_range() {
    let mut vec = Vector::new();
    vec.push(15);
    vec.push(12);
    let e: IndexOutOfBounds = vec.get_index(5).unwrap_err();
    assert_eq!(5, e.index);
    assert_eq!(2, e.length);
}

#[test]
fn pop_out_of_range() {
    let mut vec = Vector::new();
    vec.push(15);
    vec.push(12);
    vec.pop();
    let e: IndexOutOfBounds = vec.get_index(1).unwrap_err();
    assert_eq!(1, e.index);
    assert_eq!(1, e.length);
}

#[test]
fn push_index_round_trip() {
    let values = [3, 1, 4, 1, 5, 9, 2, 6];
    let mut vec = Vector::new();
    for v in values {
        vec.push(v);
    }
    assert_eq!(values.len(), vec.len());
    for (i, v) in values.iter().enumerate() {
        assert_eq!(*v, *vec.get_index(i).unwrap());
    }
}

#[test]
fn pop_restores_length() {
    let mut vec = Vector::new();
    vec.push(7);
    let before = vec.len();
    vec.push(42);
    assert_eq!(Some(42), vec.pop());
    assert_eq!(before, vec.len());
    assert_eq!(7, *vec.get_index(0).unwrap());
}

#[test]
fn pop_empty_returns_none() {
    let mut vec: Vector<u8> = Vector::new();
    assert_eq!(None, vec.pop());
    assert_eq!(0, vec.len());
}

#[test]
fn length_never_exceeds_capacity() {
    let mut vec = Vector::new();
    assert_eq!(INITIAL_CAPACITY, vec.capacity());
    let mut largest_capacity = vec.capacity();
    for i in 0..(INITIAL_CAPACITY + 1) {
        vec.push(i);
        assert!(vec.len() <= vec.capacity());
        assert!(largest_capacity <= vec.capacity());
        largest_capacity = vec.capacity();
    }
    assert_eq!(2 * INITIAL_CAPACITY, vec.capacity());
    vec.pop();
    assert_eq!(2 * INITIAL_CAPACITY, vec.capacity());
    vec.remove(0).unwrap();
    assert_eq!(2 * INITIAL_CAPACITY, vec.capacity());
    vec.clear();
    assert_eq!(2 * INITIAL_CAPACITY, vec.capacity());
}

#[test]
fn remove_shifts_tail() {
    let mut vec = Vector::new();
    for v in [15, 17, 19, 20, 21, 22] {
        vec.push(v);
    }
    vec.remove(4).unwrap();
    assert_eq!(5, vec.len());
    for (i, v) in [15, 17, 19, 20, 22].iter().enumerate() {
        assert_eq!(*v, *vec.get_index(i).unwrap());
    }
}

#[test]
fn remove_out_of_range_changes_nothing() {
    let mut vec = Vector::new();
    vec.push(8);
    vec.push(9);
    let e = vec.remove(2).unwrap_err();
    assert_eq!(2, e.index);
    assert_eq!(2, e.length);
    assert_eq!(2, vec.len());
    assert_eq!(8, *vec.get_index(0).unwrap());
    assert_eq!(9, *vec.get_index(1).unwrap());
}

#[test]
fn iteration_yields_all_in_order() {
    let mut vec = Vector::new();
    vec.push(10);
    vec.push(20);
    vec.push(30);
    let mut iter = vec.iter();
    assert_eq!(Some(10), iter.next());
    assert_eq!(Some(20), iter.next());
    assert_eq!(Some(30), iter.next());
    assert_eq!(None, iter.next());
    assert_eq!(None, iter.next());
}

#[test]
fn collecting_drains_the_snapshot() {
    let mut vec = Vector::new();
    vec.push(10);
    vec.push(20);
    vec.push(30);
    let mut iter = vec.iter();
    assert_eq!(Some(10), iter.next());
    let rest = iter.collect_remaining();
    assert_eq!(vec![20, 30], rest);
    assert_eq!(None, iter.next());
    assert_eq!(0, iter.collect_remaining().len());
}

#[test]
fn iterating_empty_yields_nothing() {
    let vec: Vector<i64> = Vector::new();
    let mut iter = vec.iter();
    assert_eq!(None, iter.next());
}

#[test]
fn iterator_is_a_snapshot() {
    let mut vec = Vector::new();
    vec.push(1);
    vec.push(2);
    let mut iter = vec.iter();
    vec.push(3);
    vec.clear();
    assert_eq!(Some(1), iter.next());
    assert_eq!(Some(2), iter.next());
    assert_eq!(None, iter.next());
}

#[test]
fn append_empties_the_source() {
    let mut left = Vector::new();
    left.push(1);
    left.push(2);
    let mut right = Vector::new();
    right.push(3);
    right.push(4);
    let right_capacity = right.capacity();
    left.append(&mut right);
    assert_eq!(0, right.len());
    assert_eq!(right_capacity, right.capacity());
    assert_eq!(4, left.len());
    for (i, v) in [1, 2, 3, 4].iter().enumerate() {
        assert_eq!(*v, *left.get_index(i).unwrap());
    }
}

#[test]
fn from_slice_equals_pushes() {
    let built = Vector::from_slice(&[11, 22, 33]);
    let mut pushed = Vector::new();
    pushed.push(11);
    pushed.push(22);
    pushed.push(33);
    assert_eq!(pushed.len(), built.len());
    for i in 0..built.len() {
        assert_eq!(*pushed.get_index(i).unwrap(), *built.get_index(i).unwrap());
    }
    assert!(pushed == built);
}

#[test]
fn from_vec_keeps_order() {
    let vec = Vector::from_vec(vec![5, 6, 7]);
    assert_eq!(3, vec.len());
    assert_eq!(&[5, 6, 7], vec.as_slice());
}

#[test]
fn reserve_makes_room() {
    let mut vec = Vector::new();
    vec.push(1);
    vec.reserve(100);
    assert!(vec.capacity() >= vec.len() + 100);
    assert_eq!(1, vec.len());
    assert_eq!(1, *vec.get_index(0).unwrap());
}

#[test]
fn clear_resets_length_only() {
    let mut vec = Vector::new();
    vec.push(4);
    vec.push(5);
    let capacity = vec.capacity();
    vec.clear();
    assert_eq!(0, vec.len());
    assert_eq!(capacity, vec.capacity());
}

#[test]
fn from_trait_matches_from_slice() {
    let values = [2, 4, 6];
    let built: Vector<i32> = Vector::from(&values[..]);
    assert_eq!(&[2, 4, 6], built.as_slice());
}

#[test]
fn as_mut_slice_writes_in_place() {
    let mut vec = Vector::from_vec(vec![1, 2, 3]);
    let elems = vec.as_mut_slice();
    elems[1] = 9;
    assert_eq!(&[1, 9, 3], vec.as_slice());
    assert_eq!(3, vec.len());
}

#[test]
fn dedup_by_keeps_contents() {
    let mut vec = Vector::from_vec(vec![1, 1, 2]);
    vec.dedup_by(|a: &i32, b: &i32| a == b);
    assert_eq!(&[1, 1, 2], vec.as_slice());
}
