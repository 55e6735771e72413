use atomic_array::{AtomicRefArray, IntoArc};
use std::sync::Arc;

#[test]
fn new_fills_every_slot_with_the_default() {
    let a = AtomicRefArray::<usize>::new(3);
    assert_eq!(a.len(), 3);
    assert!(!a.is_empty());
    for i in 0..3 {
        assert_eq!(*a.load(i), 0);
    }
}

#[test]
fn ref_zero_length_array_is_empty() {
    let a = AtomicRefArray::<usize>::new(0);
    assert_eq!(a.len(), 0);
    assert!(a.is_empty());
}

#[test]
fn ref_new_with_populates_each_slot_in_index_order() {
    let a = AtomicRefArray::<String>::new_with(5, |i| format!("value {}", i));
    assert_eq!(a.len(), 5);
    for i in 0..5 {
        assert_eq!(a.load(i).as_str(), format!("value {}", i).as_str());
    }
}

#[test]
fn ref_store_then_load_round_trip() {
    let mut a = AtomicRefArray::<String>::new_with(2, |_| String::new());
    a.store(1, String::from("payload"));
    assert_eq!(a.load(1).as_str(), "payload");
    assert_eq!(a.load(0).as_str(), "");
}

#[test]
fn ref_swap_returns_prior_content() {
    let mut a = AtomicRefArray::<String>::new_with(1, |_| String::from("first"));
    let prior = a.swap(0, String::from("second"));
    assert_eq!(prior.as_str(), "first");
    assert_eq!(a.load(0).as_str(), "second");
}

#[test]
fn load_never_observes_an_absent_slot() {
    // Whatever sequence of stores and swaps follows construction, every
    // load yields a present value.
    let mut a = AtomicRefArray::<usize>::new(4);
    for round in 0..10 {
        for i in 0..4 {
            if round % 2 == 0 {
                a.store(i, round * 10 + i);
            } else {
                let _prior = a.swap(i, Arc::new(round * 10 + i));
            }
            assert_eq!(*a.load(i), round * 10 + i);
        }
    }
}

#[test]
fn store_accepts_raw_value_and_handle() {
    let mut a = AtomicRefArray::<String>::new_with(2, |_| String::new());
    a.store(0, String::from("raw"));
    let handle = Arc::new(String::from("handle"));
    a.store(1, Arc::clone(&handle));
    assert_eq!(a.load(0).as_str(), "raw");
    assert!(Arc::ptr_eq(&handle, &a.load(1)));
}

#[test]
fn into_arc_normalizes_each_accepted_form() {
    let from_raw: Arc<usize> = 7usize.into_arc();
    assert_eq!(*from_raw, 7);

    let handle = Arc::new(7usize);
    let from_handle = Arc::clone(&handle).into_arc();
    assert!(Arc::ptr_eq(&handle, &from_handle));
}
