use linked_lists::stack_views::List;

#[test]
fn basic_stack() {
    let mut list = List::new();

    // Empty list behavior check
    assert_eq!(list.pop(), None);

    // Add to the list, then check for non-emptiness and orderliness
    list.push(1);
    list.push(2);
    list.push(3);
    assert_eq!(list.pop(), Some(3));
    assert_eq!(list.pop(), Some(2));
    list.push(4);
    list.push(5);
    assert_eq!(list.pop(), Some(5));
    assert_eq!(list.pop(), Some(4));
    assert_eq!(list.pop(), Some(1));

    // Verify list is empty again
    assert_eq!(list.pop(), None);
}

#[test]
fn peek() {
    let mut list = List::new();

    // Empty list behavior check
    assert_eq!(list.peek(), None);
    assert_eq!(list.peek_mut(), None);

    // Add to the list, then for the correct item
    list.push(1);
    list.push(2);
    assert_eq!(list.peek(), Some(&2));
    assert_eq!(list.peek_mut(), Some(&mut 2));

    // Verify mutation of the head item
    *list.peek_mut().unwrap() = -3;
    assert_eq!(list.peek(), Some(&-3));
}

#[test]
fn into_iter() {
    // Add to the list, then iterate through it.
    let mut list = List::new();
    list.push(1);
    list.push(2);
    list.push(3);

    let mut iter = list.into_iter();
    for val in vec![Some(3), Some(2), Some(1), None] {
        assert_eq!(iter.next(), val);
    }
}

#[test]
fn second_iter() {
    // Add to the list, then iterate through it.
    let mut list = List::new();
    list.push(1);
    list.push(2);
    list.push(3);

    let mut iter = list.iter();
    assert_eq!(iter.next(), Some(&3));
    assert_eq!(iter.next(), Some(&2));
    assert_eq!(iter.next(), Some(&1));
}

#[test]
fn iter_mut() {
    // Add to the list, then iterate through it.
    let mut list = List::new();
    list.push(1);
    list.push(2);
    list.push(3);

    let mut iter = list.iter_mut();
    assert_eq!(iter.next(), Some(&mut 3));
    assert_eq!(iter.next(), Some(&mut 2));
    assert_eq!(iter.next(), Some(&mut 1));
}

#[test]
fn peek_mut_write_through() {
    // Writing through peek_mut changes what peek and pop observe, and
    // nothing else.
    let mut list = List::new();
    list.push(1);
    list.push(2);
    *list.peek_mut().unwrap() = 9;
    assert_eq!(list.peek(), Some(&9));
    assert_eq!(list.pop(), Some(9));
    assert_eq!(list.pop(), Some(1));
    assert_eq!(list.pop(), None);
}

#[test]
fn iter_mut_writes_in_place() {
    // Writing through every yielded reference replaces each element in
    // place and keeps the length and order.
    let mut list = List::new();
    list.push(1);
    list.push(2);
    list.push(3);

    let mut iter = list.iter_mut();
    while let Some(value) = iter.next() {
        *value += 10;
    }

    assert_eq!(list.pop(), Some(13));
    assert_eq!(list.pop(), Some(12));
    assert_eq!(list.pop(), Some(11));
    assert_eq!(list.pop(), None);
}

#[test]
fn borrowing_iterators_leave_list_unchanged() {
    // iter is restartable and does not consume the list.
    let mut list = List::new();
    list.push(1);
    list.push(2);

    let mut first_pass = list.iter();
    assert_eq!(first_pass.next(), Some(&2));
    assert_eq!(first_pass.next(), Some(&1));
    assert_eq!(first_pass.next(), None);

    let mut second_pass = list.iter();
    assert_eq!(second_pass.next(), Some(&2));
    assert_eq!(second_pass.next(), Some(&1));
    assert_eq!(second_pass.next(), None);

    assert_eq!(list.pop(), Some(2));
    assert_eq!(list.pop(), Some(1));
    assert_eq!(list.pop(), None);
}

#[test]
fn empty_edge_cases() {
    let mut list: List<i32> = List::new();
    assert_eq!(list.pop(), None);
    assert_eq!(list.peek(), None);
    assert_eq!(list.peek_mut(), None);
    assert_eq!(list.iter().next(), None);
    assert_eq!(list.iter_mut().next(), None);
    assert_eq!(list.into_iter().next(), None);
}

#[test]
fn peek_pop_agree() {
    // peek followed by pop returns the same element, and the pop shortens
    // the list by exactly one.
    let mut list = List::new();
    list.push(7);
    list.push(8);
    let peeked = list.peek().copied();
    assert_eq!(peeked, Some(8));
    assert_eq!(list.pop(), Some(8));
    assert_eq!(list.peek(), Some(&7));
    assert_eq!(list.pop(), Some(7));
    assert_eq!(list.pop(), None);
}

#[test]
fn long_stack_views_teardown() {
    // A long chain must be dropped without exhausting the call stack.
    let mut list = List::new();
    for i in 0..200_000u32 {
        list.push(i);
    }
    drop(list);
}

#[test]
fn iterator_flavors_agree() {
    // Three iteration modes over lists with the same content yield the
    // same sequence: the elements in reverse push order.
    let mut by_value = List::new();
    let mut by_ref = List::new();
    for i in [1, 2, 3, 4, 5] {
        by_value.push(i);
        by_ref.push(i);
    }

    let mut consuming = by_value.into_iter();
    let mut borrowing = by_ref.iter();
    for expected in [5, 4, 3, 2, 1] {
        assert_eq!(consuming.next(), Some(expected));
        assert_eq!(borrowing.next(), Some(&expected));
    }
    assert_eq!(consuming.next(), None);
    assert_eq!(borrowing.next(), None);

    let mut mutably = by_ref.iter_mut();
    for expected in [5, 4, 3, 2, 1] {
        assert_eq!(mutably.next().copied(), Some(expected));
    }
    assert_eq!(mutably.next(), None);

    // The borrowing passes left the list intact; the consuming pass took
    // its list with it.
    assert_eq!(by_ref.peek(), Some(&5));
}
