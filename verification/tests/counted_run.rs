//! The counted-array accessor yields exactly `count` elements, and a zero
//! count yields none at all, null base included.

use limine::ptr::CountedPtr;

#[test]
fn zero_count_with_null_base_is_empty() {
    let run: CountedPtr<u64> = CountedPtr::new(0, None);
    assert_eq!(run.len(), 0);
    assert!(run.is_empty());
    assert_eq!(run.to_vec(), Vec::<u64>::new());
}

#[test]
fn empty_constructor_matches_null_base() {
    let run: CountedPtr<u64> = CountedPtr::empty();
    assert_eq!(run.len(), 0);
    assert!(run.to_vec().is_empty());
}

#[test]
fn zero_count_with_live_base_is_still_empty() {
    let run: CountedPtr<u64> = CountedPtr::new(0, Some(vec![7, 8, 9]));
    assert_eq!(run.len(), 0);
    assert!(run.to_vec().is_empty());
}

#[test]
fn count_bounds_the_elements_handed_out() {
    let run: CountedPtr<u64> = CountedPtr::new(2, Some(vec![10, 20, 30]));
    assert_eq!(run.len(), 2);
    assert_eq!(run.to_vec(), vec![10, 20]);
    assert_eq!(*run.get(0), 10);
    assert_eq!(*run.get(1), 20);
}

#[test]
fn set_overwrites_one_element() {
    let mut run: CountedPtr<u64> = CountedPtr::new(3, Some(vec![1, 2, 3]));
    run.set(1, 42);
    assert_eq!(run.to_vec(), vec![1, 42, 3]);
}

#[test]
fn get_mut_overwrites_one_element() {
    let mut run: CountedPtr<u64> = CountedPtr::new(3, Some(vec![1, 2, 3]));
    *run.get_mut(2) = 9;
    assert_eq!(run.to_vec(), vec![1, 2, 9]);
}

#[test]
fn null_base_reports_null() {
    let none: CountedPtr<u8> = CountedPtr::new(0, None);
    let some: CountedPtr<u8> = CountedPtr::new(0, Some(Vec::new()));
    assert!(!none.has_base());
    assert!(some.has_base());
}
