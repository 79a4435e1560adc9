use reiterator::indexed::{clone_value, copy_value, index, value, Indexed, OptionIndexed};
use reiterator::source::Items;
use reiterator::{reiterate, Reiterate, Reiterator};

fn address<T>(r: &T) -> String {
    format!("{:p}", r)
}

#[test]
fn persistent_addresses_reiterator() {
    let range: Vec<u8> = (0..=u8::MAX).collect();
    let mut iter = Items::new(range.clone()).reiterate();
    let mut addresses = vec![];
    while let Some(i) = iter.next() {
        println!("{i:#?}");
        addresses.push((i.index, *i.value, address(i.value)));
    }
    assert_eq!(addresses.len(), range.len());
    for (i, addr) in addresses.into_iter().enumerate() {
        println!("   i = {i:}");
        println!("addr = {addr:#?}");
        println!();
        let expected: u8 = i.try_into().unwrap();
        assert_eq!((addr.0, addr.1), (i, expected));
        assert_eq!(address(iter.at(i).unwrap()), addr.2);
    }
}

#[test]
fn scenario_current_next_restart() {
    let mut cursor = reiterate(Items::new(vec!['a', 'b', 'c']));
    let first = cursor.get().unwrap();
    assert_eq!(first, Indexed { index: 0, value: &'a' });
    let first_address = address(first.value);
    let again = cursor.get().unwrap();
    assert_eq!(again, Indexed { index: 0, value: &'a' });
    assert_eq!(address(again.value), first_address);
    assert_eq!(cursor.next(), Some(Indexed { index: 0, value: &'a' }));
    assert_eq!(cursor.index, 1);
    assert_eq!(cursor.get(), Some(Indexed { index: 1, value: &'b' }));
    assert_eq!(cursor.next(), Some(Indexed { index: 1, value: &'b' }));
    assert_eq!(cursor.next(), Some(Indexed { index: 2, value: &'c' }));
    assert_eq!(cursor.next(), None);
    cursor.restart();
    assert_eq!(cursor.index, 0);
    let replayed = cursor.next().unwrap();
    assert_eq!(replayed, Indexed { index: 0, value: &'a' });
    assert_eq!(address(replayed.value), first_address);
}

#[test]
fn next_walks_a_source_of_length_n_then_stops() {
    let values = vec![5u32, 6, 7, 8, 9, 10, 11];
    let mut cursor = Reiterator::new(Items::new(values.clone()));
    for (k, v) in values.iter().enumerate() {
        assert_eq!(cursor.next(), Some(Indexed { index: k, value: v }));
    }
    assert_eq!(cursor.next(), None);
    assert_eq!(cursor.next(), None);
}

#[test]
fn restart_replays_identical_pairs() {
    let mut cursor = reiterate(Items::new(vec![String::from("x"), String::from("y")]));
    let mut first_pass = vec![];
    while let Some(i) = cursor.next() {
        first_pass.push((i.index, i.value.clone(), address(i.value)));
    }
    cursor.restart();
    let mut second_pass = vec![];
    while let Some(i) = cursor.next() {
        second_pass.push((i.index, i.value.clone(), address(i.value)));
    }
    assert_eq!(first_pass.len(), 2);
    assert_eq!(first_pass, second_pass);
}

#[test]
fn start_anywhere_and_hop_around() {
    let mut iter = Items::new(vec!['a', 'b', 'c']).reiterate();
    assert_eq!(iter.next(), Some(Indexed { index: 0, value: &'a' }));
    assert_eq!(iter.next(), Some(Indexed { index: 1, value: &'b' }));
    iter.index = 1;
    assert_eq!(iter.next(), Some(Indexed { index: 1, value: &'b' }));
    assert_eq!(iter.next(), Some(Indexed { index: 2, value: &'c' }));
    assert_eq!(iter.at(1), Some(&'b'));
    assert_eq!(iter.at(2), Some(&'c'));
    assert_eq!(iter.at(3), None);
    assert_eq!(iter.index, 3);
}

#[test]
fn position_may_run_ahead_of_the_values() {
    let mut cursor = reiterate(Items::new(vec![1i8, 2]));
    cursor.index = 10;
    assert_eq!(cursor.get(), None);
    assert_eq!(cursor.index, 10);
    assert_eq!(cursor.next(), None);
    assert_eq!(cursor.index, 11);
    assert_eq!(cursor.at(1), Some(&2));
}

#[test]
fn lazy_next_moves_without_producing() {
    let mut cursor = reiterate(Items::new(vec![1u16, 2, 3]));
    assert_eq!(cursor.lazy_next(), Some(1));
    assert_eq!(cursor.lazy_next(), Some(2));
    assert_eq!(cursor.index, 2);
    assert_eq!(cursor.get(), Some(Indexed { index: 2, value: &3 }));
    assert_eq!(cursor.lazy_next(), Some(3));
    assert_eq!(cursor.get(), None);
}

#[test]
fn position_does_not_wrap_at_the_maximum() {
    let mut cursor = reiterate(Items::new(vec![1u16]));
    cursor.index = usize::MAX;
    assert_eq!(cursor.lazy_next(), None);
    assert_eq!(cursor.index, usize::MAX);
    assert_eq!(cursor.next(), None);
    assert_eq!(cursor.index, usize::MAX);
    cursor.restart();
    assert_eq!(cursor.next(), Some(Indexed { index: 0, value: &1 }));
}

#[test]
fn map_passes_pairs_through_the_function() {
    let cursor = reiterate(Items::new(vec![10u32, 20, 30]));
    let mut mapped = cursor.map(|i: Indexed<'_, u32>| i.index as u32 + *i.value);
    assert_eq!(mapped.next(), Some(10));
    assert_eq!(mapped.next(), Some(21));
    assert_eq!(mapped.next(), Some(32));
    assert_eq!(mapped.next(), None);
}

#[test]
fn map_indices_and_values() {
    let mut indices = reiterate(Items::new(vec!['p', 'q'])).map_indices(|i: usize| i * 100);
    assert_eq!(indices.next(), Some(0));
    assert_eq!(indices.next(), Some(100));
    assert_eq!(indices.next(), None);
    let mut values = reiterate(Items::new(vec!['p', 'q'])).map_values(|c: &char| c.to_ascii_uppercase());
    assert_eq!(values.next(), Some('P'));
    assert_eq!(values.next(), Some('Q'));
    assert_eq!(values.next(), None);
}

#[test]
fn cloned_hands_out_owned_pairs() {
    let mut owned = reiterate(Items::new(vec![String::from("u"), String::from("v")])).cloned();
    assert_eq!(owned.next(), Some((0, String::from("u"))));
    assert_eq!(owned.next(), Some((1, String::from("v"))));
    assert_eq!(owned.next(), None);
}

#[test]
fn indexed_projections() {
    let v = 42u64;
    let pair = Indexed { index: 3, value: &v };
    assert_eq!(index(pair), 3);
    assert_eq!(value(pair), &42);
    assert_eq!(copy_value(pair), 42);
    let s = String::from("s");
    assert_eq!(clone_value(Indexed { index: 0, value: &s }), String::from("s"));
    let some = Some(pair);
    assert_eq!(OptionIndexed::index(&some), Some(3));
    assert_eq!(OptionIndexed::value(&some), Some(&42));
    let none: Option<Indexed<'_, u64>> = None;
    assert_eq!(OptionIndexed::index(&none), None);
    assert_eq!(OptionIndexed::value(&none), None);
}
