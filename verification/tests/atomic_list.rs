use atomic_list::atomic_list::AtomicList;

#[test]
fn test_push() {
    let mut list = AtomicList::new();
    list.push(1);
    list.push(2);
    list.push(3);
}

#[test]
fn test_into_iter() {
    let mut list = AtomicList::new();
    list.push(1);
    list.push(2);
    list.push(3);

    let mut iter = list.into_iter();
    let mut list = Vec::new();
    while let Some(value) = iter.next() {
        list.push(value);
    }
    assert_eq!(list, vec![3, 2, 1]);
}

#[test]
fn test_drain_empty() {
    let list: AtomicList<i32> = AtomicList::new();
    let mut iter = list.into_iter();
    let mut count = 0u32;
    while let Some(_) = iter.next() {
        count += 1;
    }
    assert_eq!(count, 0);
}

#[test]
fn test_drain_is_exhaustive_and_single_use() {
    let mut list = AtomicList::new();
    list.push(10);
    list.push(20);

    let mut iter = list.into_iter();
    assert_eq!(iter.next(), Some(20));
    assert_eq!(iter.next(), Some(10));
    assert_eq!(iter.next(), None);
    assert_eq!(iter.next(), None);
    assert_eq!(iter.next(), None);
}

#[test]
fn test_contents_preserved() {
    let batches = 4u32;
    let per_batch = 250u32;
    let total = batches * per_batch;

    let mut list = AtomicList::new();
    for batch in 0..batches {
        for i in 0..per_batch {
            list.push(batch * per_batch + i);
        }
    }

    let mut seen = vec![0u32; total as usize];
    let mut count = 0u32;
    let mut iter = list.into_iter();
    while let Some(value) = iter.next() {
        seen[value as usize] += 1;
        count += 1;
    }
    assert_eq!(count, total);
    for occurrences in seen {
        assert_eq!(occurrences, 1);
    }
}

#[test]
fn test_pushed_value_not_lost() {
    let mut list = AtomicList::new();
    list.push(7);
    let mut iter = list.into_iter();
    assert_eq!(iter.next(), Some(7));
    assert_eq!(iter.next(), None);
}

#[test]
fn test_teardown_large() {
    let mut list = AtomicList::new();
    for i in 0..1_000_000u64 {
        list.push(i);
    }
    drop(list);
}

#[test]
fn test_iterator_teardown_large() {
    let mut list = AtomicList::new();
    for i in 0..1_000_000u64 {
        list.push(i);
    }
    let mut iter = list.into_iter();
    assert_eq!(iter.next(), Some(999_999));
    drop(iter);
}
