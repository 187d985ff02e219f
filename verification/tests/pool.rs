use agp_dataplane::pool::Pool;
use rand::Rng;

#[test]
fn test_pool() {
    let mut pool = Pool::with_capacity(10);
    assert_eq!(pool.len(), 0);
    assert_eq!(pool.capacity(), 10);
    assert!(pool.is_empty());
    assert_eq!(pool.max_set(), 0);

    let element = 42;
    let index = pool.insert(element).unwrap();
    assert_eq!(pool.len(), 1);
    assert_eq!(pool.get(index), Some(&element));
    assert_eq!(pool.get_mut(index), Some(&mut 42));
    assert_eq!(pool.max_set(), 0);

    let element = 43;
    let index = pool.insert(element).unwrap();
    assert_eq!(pool.len(), 2);
    assert_eq!(pool.get(index), Some(&element));
    assert_eq!(pool.get_mut(index), Some(&mut 43));
    assert_eq!(pool.max_set(), 1);

    let element = 44;
    let index = pool.insert(element).unwrap();
    assert_eq!(pool.len(), 3);
    assert_eq!(pool.get(index), Some(&element));
    assert_eq!(pool.get_mut(index), Some(&mut 44));
    assert_eq!(pool.max_set(), 2);

    let element = 45;
    let index = pool.insert(element).unwrap();
    assert_eq!(pool.len(), 4);
    assert_eq!(pool.get(index), Some(&element));
    assert_eq!(pool.get_mut(index), Some(&mut 45));
    assert_eq!(pool.max_set(), 3);

    let element = 46;
    let index = pool.insert(element).unwrap();
    assert_eq!(pool.len(), 5);
    assert_eq!(pool.get(index), Some(&element));
    assert_eq!(pool.get_mut(index), Some(&mut 46));
    assert_eq!(pool.max_set(), 4);

    let element = 47;
    let index = pool.insert(element).unwrap();
    assert_eq!(pool.len(), 6);
    assert_eq!(pool.get(index), Some(&element));
    assert_eq!(pool.get_mut(index), Some(&mut 47));
    assert_eq!(pool.max_set(), 5);

    let element = 48;
    let index = pool.insert(element).unwrap();
    assert_eq!(pool.len(), 7);
    assert_eq!(pool.get(index), Some(&element));
    assert_eq!(pool.get_mut(index), Some(&mut 48));
    assert_eq!(pool.max_set(), 6);

    let element = 49;
    let index = pool.insert(element).unwrap();
    assert_eq!(pool.len(), 8);
    assert_eq!(pool.get(index), Some(&element));
    assert_eq!(pool.get_mut(index), Some(&mut 49));
    assert_eq!(pool.max_set(), 7);

    let current_len = pool.len();
    let mut curr_max_set = pool.max_set();

    // insert a very large number of elements in a loop to trigger resize
    for mut i in 0..1000 {
        let index = pool.insert(i).unwrap();
        assert_eq!(pool.get(index), Some(&i));
        assert_eq!(pool.get_mut(index), Some(&mut i));
        assert_eq!(pool.max_set(), curr_max_set + 1);
        curr_max_set = pool.max_set();
    }

    assert_eq!(pool.len(), current_len + 1000);

    let current_len = pool.len();
    let mut curr_max_set = pool.max_set();

    // remove some random elements between 0 and 1000
    let mut removed_indexes = Vec::new();

    for i in 0..1000 {
        let pivot = rand::rng().random_range(0..1000) as usize;
        if i < pivot {
            let ret = pool.remove(i);
            assert_eq!(ret, true);

            if i == curr_max_set {
                assert_ne!(curr_max_set, pool.max_set());
            } else {
                assert_eq!(curr_max_set, pool.max_set());
            }
            curr_max_set = pool.max_set();

            removed_indexes.push(i);
        }
    }

    assert_eq!(pool.len(), current_len - removed_indexes.len());

    let mut curr_max_set = pool.max_set();

    // insert new elements and check that they land in the freed slots
    for mut i in 0..removed_indexes.len() {
        let index = pool.insert(i).unwrap();
        assert_eq!(index, removed_indexes[i]);
        assert_eq!(pool.get(index), Some(&i));
        assert_eq!(pool.get_mut(index), Some(&mut i));
        if i > curr_max_set {
            assert_eq!(i, pool.max_set());
            curr_max_set = pool.max_set();
        } else {
            assert_eq!(curr_max_set, pool.max_set());
        }
    }
}

#[test]
fn pool_reuses_lowest_freed_slot() {
    let mut pool: Pool<u64> = Pool::with_capacity(4);
    assert_eq!(pool.insert(10), Some(0));
    assert_eq!(pool.insert(11), Some(1));
    assert_eq!(pool.insert(12), Some(2));
    assert!(pool.remove(1));
    assert_eq!(pool.get(1), None);
    assert_eq!(pool.len(), 2);
    assert_eq!(pool.insert(13), Some(1));
    assert_eq!(pool.get(1), Some(&13));
    assert_eq!(pool.len(), 3);
}

#[test]
fn pool_remove_free_or_out_of_range_slot() {
    let mut pool: Pool<u64> = Pool::with_capacity(2);
    assert!(!pool.remove(0));
    assert!(!pool.remove(5));
    assert_eq!(pool.insert(1), Some(0));
    assert!(pool.remove(0));
    assert!(!pool.remove(0));
    assert!(pool.is_empty());
}

#[test]
fn pool_doubles_when_full() {
    let mut pool: Pool<u64> = Pool::with_capacity(2);
    assert_eq!(pool.insert(1), Some(0));
    assert_eq!(pool.insert(2), Some(1));
    assert_eq!(pool.capacity(), 2);
    assert_eq!(pool.insert(3), Some(2));
    assert_eq!(pool.capacity(), 4);
    assert_eq!(pool.len(), 3);
    assert_eq!(pool.get(3), None);
}

#[test]
fn pool_get_mut_writes_through() {
    let mut pool: Pool<u64> = Pool::with_capacity(3);
    let i = pool.insert(5).unwrap();
    if let Some(v) = pool.get_mut(i) {
        *v = 9;
    }
    assert_eq!(pool.get(i), Some(&9));
    assert_eq!(pool.get_mut(2), None);
}

#[test]
fn pool_max_set_after_removing_top() {
    // slots 0, 1, 2 occupied; freeing slot 2 moves the record to slot 1
    let mut pool: Pool<u64> = Pool::with_capacity(4);
    pool.insert(1);
    pool.insert(2);
    pool.insert(3);
    assert_eq!(pool.max_set(), 2);
    assert!(pool.remove(2));
    assert_eq!(pool.len(), 2);
    assert_eq!(pool.max_set(), 1);
    // freeing a slot below the recorded one keeps the record
    assert!(pool.remove(0));
    assert_eq!(pool.max_set(), 1);
    // with nothing left occupied, the record is 0
    assert!(pool.remove(1));
    assert_eq!(pool.max_set(), 0);
    // a gap below the top is skipped over
    let mut pool: Pool<u64> = Pool::with_capacity(4);
    pool.insert(1);
    pool.insert(2);
    pool.insert(3);
    assert!(pool.remove(1));
    assert!(pool.remove(2));
    assert_eq!(pool.max_set(), 0);
}

#[test]
fn pool_with_no_capacity_grows() {
    let mut pool: Pool<u32> = Pool::with_capacity(0);
    assert_eq!(pool.insert(7), Some(0));
    assert_eq!(pool.get(0), Some(&7));
    assert_eq!(pool.len(), 1);
    assert_eq!(pool.capacity(), 1);
    assert_eq!(pool.insert(8), Some(1));
    assert_eq!(pool.capacity(), 2);
}
