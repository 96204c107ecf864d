use dreamberd_array::{FracIndex, List};

fn list_of(pushes: &[i32]) -> List<i32> {
    let mut list = List::new();
    for &e in pushes {
        list.push(e);
    }
    list
}

fn contents(list: &List<i32>) -> Vec<i32> {
    let mut out = Vec::new();
    let mut iter = list.iter();
    while let Some(e) = iter.next() {
        out.push(*e);
    }
    out
}

#[test]
fn pushes_then_pops_come_back_reversed() {
    let mut list = list_of(&[10, 20, 30, 40]);
    assert_eq!(list.pop(), Some(40));
    assert_eq!(list.pop(), Some(30));
    assert_eq!(list.pop(), Some(20));
    assert_eq!(list.pop(), Some(10));
    assert_eq!(list.pop(), None);
    assert_eq!(list.pop(), None);
}

#[test]
fn len_is_pushes_less_pops() {
    let mut list: List<i32> = List::new();
    assert_eq!(list.pop(), None);
    assert_eq!(list.len(), 0);
    list.push(1);
    list.push(2);
    assert_eq!(list.len(), 2);
    list.pop();
    assert_eq!(list.len(), 1);
    list.pop();
    list.pop();
    assert_eq!(list.len(), 0);
    list.push(3);
    assert_eq!(list.len(), 1);
}

#[test]
fn peek_matches_next_pop() {
    let mut list = list_of(&[5, 6, 7]);
    while !list.is_empty() {
        let seen = list.peek().copied();
        assert_eq!(seen, list.pop());
    }
    assert_eq!(list.peek(), None);
}

#[test]
fn into_iter_yields_reverse_of_pushes() {
    let list = list_of(&[1, 2, 3, 4, 5]);
    let mut iter = list.into_iter();
    let mut out = Vec::new();
    while let Some(e) = iter.next() {
        out.push(e);
    }
    assert_eq!(out, vec![5, 4, 3, 2, 1]);
    assert_eq!(iter.next(), None);
}

#[test]
fn bounds_of_the_scale() {
    let list = list_of(&[1, 2, 3, 4]);
    assert_eq!(list.get(FracIndex::at(-1)), Some(&1));
    assert_eq!(list.get(FracIndex::at(2)), Some(&4));
    assert_eq!(list.get(FracIndex::at(3)), None);
    // -1.1 lies strictly between -2 and -1
    assert_eq!(list.get(FracIndex::between(-2)), None);
    assert_eq!(list.get(FracIndex::at(-2)), None);
    assert_eq!(list.get(FracIndex::between(2)), None);
}

#[test]
fn fractional_reads() {
    let list = list_of(&[1, 2, 3]);
    assert_eq!(list.get(FracIndex::between(-1)), Some(&2));
    assert_eq!(list.get(FracIndex::between(0)), Some(&3));
    assert_eq!(list.get(FracIndex::at(-1)), Some(&1));
    assert_eq!(list.get(FracIndex::at(0)), Some(&2));
    assert_eq!(list.get(FracIndex::at(1)), Some(&3));
    assert_eq!(list.get(FracIndex::between(1)), None);
}

#[test]
fn fractional_inserts() {
    let mut list = list_of(&[1, 2, 3]);
    list.insert(FracIndex::between(-1), 42);
    assert_eq!(list.get(FracIndex::between(-1)), Some(&42));
    list.insert(FracIndex::between(1), 69);
    assert_eq!(list.get(FracIndex::between(1)), Some(&69));
    assert_eq!(contents(&list), vec![3, 69, 2, 42, 1]);
    assert_eq!(list.len(), 5);
}

#[test]
fn whole_insert_goes_below_the_position() {
    let mut list = list_of(&[1, 2, 3]);
    list.insert(FracIndex::at(0), 0);
    assert_eq!(list.len(), 4);
    assert_eq!(list.get(FracIndex::at(-1)), Some(&1));
    assert_eq!(list.get(FracIndex::at(0)), Some(&0));
    assert_eq!(list.get(FracIndex::at(1)), Some(&2));
    assert_eq!(list.get(FracIndex::at(2)), Some(&3));
}

#[test]
fn insert_at_the_ends() {
    let mut list = list_of(&[1, 2]);
    list.insert(FracIndex::at(-1), 9);
    assert_eq!(contents(&list), vec![2, 1, 9]);
    list.insert(FracIndex::at(1), 8);
    assert_eq!(contents(&list), vec![2, 8, 1, 9]);
}

#[test]
fn insert_out_of_bounds_changes_nothing() {
    let mut list = list_of(&[1, 2, 3]);
    list.insert(FracIndex::at(2), 7);
    list.insert(FracIndex::between(-2), 7);
    list.insert(FracIndex::between(1), 7);
    assert_eq!(contents(&list), vec![3, 2, 1]);
}

#[test]
fn empty_list() {
    let mut list: List<i32> = List::new();
    assert_eq!(list.len(), 0);
    assert!(list.is_empty());
    assert_eq!(list.pop(), None);
    assert_eq!(list.peek(), None);
    assert_eq!(list.peek_mut(), None);
    assert_eq!(list.get(FracIndex::at(-1)), None);
    assert_eq!(list.get(FracIndex::at(0)), None);
    assert_eq!(list.get(FracIndex::between(-1)), None);
    assert_eq!(list.get_mut(FracIndex::at(-1)), None);
    list.insert(FracIndex::at(-1), 1);
    list.insert(FracIndex::between(-1), 1);
    assert_eq!(list.len(), 0);
    assert!(list.iter().next().is_none());
}

#[test]
fn writes_through_peek_mut_and_get_mut() {
    let mut list = list_of(&[1, 2, 3]);
    if let Some(v) = list.peek_mut() {
        *v = 30;
    }
    assert_eq!(list.peek(), Some(&30));
    if let Some(v) = list.get_mut(FracIndex::between(-1)) {
        *v = 20;
    }
    assert_eq!(list.get(FracIndex::at(0)), Some(&20));
    assert_eq!(list.get_mut(FracIndex::at(2)), None);
    *list.index_mut(FracIndex::at(-1)) = 10;
    assert_eq!(*list.index(FracIndex::at(-1)), 10);
    assert_eq!(contents(&list), vec![30, 20, 10]);
}

#[test]
fn iter_mut_writes_every_element() {
    let mut list = list_of(&[1, 2, 3]);
    {
        let mut iter = list.iter_mut();
        while let Some(v) = iter.next() {
            *v *= 10;
        }
        assert!(iter.next().is_none());
    }
    assert_eq!(contents(&list), vec![30, 20, 10]);
}

#[test]
fn steps_from_head_values() {
    assert_eq!(FracIndex::at(-1).steps_from_head(3), Some(2));
    assert_eq!(FracIndex::at(1).steps_from_head(3), Some(0));
    assert_eq!(FracIndex::between(-1).steps_from_head(3), Some(1));
    assert_eq!(FracIndex::between(0).steps_from_head(3), Some(0));
    assert_eq!(FracIndex::between(1).steps_from_head(3), None);
    assert_eq!(FracIndex::at(2).steps_from_head(3), None);
    assert_eq!(FracIndex::between(-2).steps_from_head(3), None);
    assert_eq!(FracIndex::at(-1).steps_from_head(0), None);
    assert_eq!(FracIndex::at(i64::MAX).steps_from_head(usize::MAX), Some(9223372036854775806));
    assert_eq!(FracIndex::at(i64::MIN).steps_from_head(usize::MAX), None);
    assert_eq!(FracIndex::between(i64::MAX).steps_from_head(usize::MAX), Some(9223372036854775805));
    assert_eq!(FracIndex::at(i64::MAX).steps_from_head(5), None);
}

#[test]
fn long_list_is_dropped() {
    let mut list = List::new();
    for i in 0..200_000u32 {
        list.push(i);
    }
    assert_eq!(list.len(), 200_000);
    drop(list);
}

#[test]
fn debug_shows_the_elements() {
    let list = list_of(&[7, 8]);
    let shown = format!("{:?}", list);
    assert!(shown.contains('7'));
    assert!(shown.contains('8'));
}
