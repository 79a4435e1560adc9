use reiterator::cache::{cached, Cached};
use reiterator::source::{Items, Source};
use reiterator::store::Store;

fn address<T>(r: &T) -> String {
    format!("{:p}", r)
}

fn full_u16_range() -> Vec<u16> {
    (0..=u16::MAX).collect()
}

#[test]
fn persistent_addresses_cache() {
    let range = full_u16_range();
    let mut cache = Items::new(range.clone()).cached();
    let mut addresses = vec![];
    for &i in range.iter() {
        addresses.push(address(cache.get(usize::from(i)).unwrap()));
    }
    for &i in range.iter() {
        let stored = cache.peek(usize::from(i)).unwrap();
        assert_eq!(stored, &i);
        assert_eq!(address(stored), addresses[usize::from(i)]);
    }
}

#[test]
fn simple_range_doesnt_panic() {
    let mut cache = Items::new(full_u16_range()).cached();
    for i in 0..=u16::MAX {
        let lhs = cache.get(usize::from(i));
        let rhs = Some(&i);
        assert_eq!(lhs, rhs);
    }
}

#[test]
fn full_range_then_one_past_the_end_is_absent() {
    let mut cache = cached(Items::new(full_u16_range()));
    for i in 0..=u16::MAX {
        assert_eq!(cache.get(usize::from(i)), Some(&i));
    }
    assert_eq!(cache.get(65536), None);
}

#[test]
fn lookups_in_any_order_keep_addresses() {
    let mut cache = cached(Items::new(vec![10u8, 20, 30, 40, 50]));
    let third = address(cache.get(2).unwrap());
    let first = address(cache.get(0).unwrap());
    assert_eq!(cache.get(4), Some(&50));
    assert_eq!(address(cache.get(2).unwrap()), third);
    assert_eq!(address(cache.get(0).unwrap()), first);
    assert_eq!(cache.get(1), Some(&20));
    assert_eq!(cache.get(3), Some(&40));
}

#[test]
fn absent_index_stays_absent_for_larger_indices() {
    let mut cache = cached(Items::new(vec!['x', 'y']));
    assert_eq!(cache.get(2), None);
    for j in 2..20 {
        assert_eq!(cache.get(j), None);
    }
    assert_eq!(cache.get(1), Some(&'y'));
}

#[test]
fn huge_index_on_finite_source_terminates() {
    let mut cache = cached(Items::new(vec![1u64, 2, 3]));
    assert_eq!(cache.get(usize::MAX), None);
    assert_eq!(cache.get(2), Some(&3));
}

#[test]
fn empty_source_gives_nothing() {
    let mut cache = cached(Items::new(Vec::<i32>::new()));
    assert!(cache.is_empty());
    assert_eq!(cache.get(0), None);
    assert!(cache.is_empty());
}

#[test]
fn is_empty_until_first_lookup() {
    let mut cache = cached(Items::new(vec![7i32, 8]));
    assert!(cache.is_empty());
    assert_eq!(cache.peek(0), None);
    assert_eq!(cache.get(0), Some(&7));
    assert!(!cache.is_empty());
    assert_eq!(cache.peek(0), Some(&7));
    assert_eq!(cache.peek(1), None);
}

#[test]
fn items_yield_in_order_then_nothing() {
    let mut items = Items::new(vec![3, 1, 2]);
    assert_eq!(items.advance(), Some(3));
    assert_eq!(items.advance(), Some(1));
    assert_eq!(items.advance(), Some(2));
    assert_eq!(items.advance(), None);
    assert_eq!(items.advance(), None);
}

#[test]
fn store_appends_and_keeps_addresses() {
    let mut store = Store::new();
    assert_eq!(store.count(), 0);
    assert_eq!(store.get(0), None);
    let first = address(store.append(String::from("one")));
    for i in 0..1000 {
        assert_eq!(store.append(format!("{}", i)), &format!("{}", i));
    }
    assert_eq!(store.count(), 1001);
    assert_eq!(store.get(0).map(|s| s.as_str()), Some("one"));
    assert_eq!(address(store.get(0).unwrap()), first);
    assert_eq!(store.get(1000).map(|s| s.as_str()), Some("999"));
    assert_eq!(store.get(1001), None);
}

#[test]
fn failed_lookup_keeps_everything_the_source_had() {
    let mut cache = cached(Items::new(vec![1u8, 2, 3]));
    assert_eq!(cache.get(9), None);
    assert!(!cache.is_empty());
    assert_eq!(cache.peek(0), Some(&1));
    assert_eq!(cache.peek(2), Some(&3));
    assert_eq!(cache.peek(3), None);
}
