use vim_buffer::bounded_usize::BoundedUsize;

fn at(max: usize, value: usize) -> BoundedUsize {
    let mut bounded = BoundedUsize::with_capacity(max);
    bounded.set(value);
    bounded
}

#[test]
fn with_capacity_starts_at_zero() {
    let bounded = BoundedUsize::with_capacity(7);
    assert_eq!(bounded.as_value(), 0);
    assert_eq!(bounded.as_max(), 7);
    let bounded = BoundedUsize::default();
    assert_eq!(bounded.as_value(), 0);
    assert_eq!(bounded.as_max(), 0);
}

#[test]
fn increment_stops_at_max() {
    let mut bounded = BoundedUsize::with_capacity(2);
    assert!(bounded.increment());
    assert_eq!(bounded.as_value(), 1);
    assert!(bounded.increment());
    assert_eq!(bounded.as_value(), 2);
    assert!(!bounded.increment());
    assert_eq!(bounded.as_value(), 2);
    assert_eq!(bounded.as_max(), 2);
    let mut empty = BoundedUsize::default();
    assert!(!empty.increment());
    assert_eq!(empty.as_value(), 0);
}

#[test]
fn decrement_stops_at_zero() {
    let mut bounded = at(5, 1);
    assert!(bounded.decrement());
    assert_eq!(bounded.as_value(), 0);
    assert!(!bounded.decrement());
    assert_eq!(bounded.as_value(), 0);
    assert_eq!(bounded.as_max(), 5);
}

#[test]
fn set_clamps_to_max() {
    let mut bounded = BoundedUsize::with_capacity(5);
    bounded.set(3);
    assert_eq!(bounded.as_value(), 3);
    bounded.set(5);
    assert_eq!(bounded.as_value(), 5);
    bounded.set(6);
    assert_eq!(bounded.as_value(), 5);
    bounded.set(usize::MAX);
    assert_eq!(bounded.as_value(), 5);
    bounded.set(0);
    assert_eq!(bounded.as_value(), 0);
    assert_eq!(bounded.as_max(), 5);
}

#[test]
fn set_max_clamps_value() {
    let mut bounded = at(9, 6);
    bounded.set_max(8);
    assert_eq!((bounded.as_value(), bounded.as_max()), (6, 8));
    bounded.set_max(6);
    assert_eq!((bounded.as_value(), bounded.as_max()), (6, 6));
    bounded.set_max(2);
    assert_eq!((bounded.as_value(), bounded.as_max()), (2, 2));
    bounded.set_max(usize::MAX);
    assert_eq!((bounded.as_value(), bounded.as_max()), (2, usize::MAX));
}

#[test]
fn set_to_max_goes_to_max() {
    let mut bounded = at(9, 6);
    bounded.set_to_max();
    assert_eq!((bounded.as_value(), bounded.as_max()), (9, 9));
}

#[test]
fn increment_with_capacity_moves_both() {
    let mut bounded = at(9, 6);
    bounded.increment_with_capacity_unchecked();
    assert_eq!((bounded.as_value(), bounded.as_max()), (7, 10));
    let mut full = at(usize::MAX - 1, usize::MAX - 1);
    full.increment_with_capacity_unchecked();
    assert_eq!((full.as_value(), full.as_max()), (usize::MAX, usize::MAX));
}

#[test]
fn decrement_with_capacity_moves_both_down_to_zero() {
    let mut bounded = at(9, 6);
    bounded.decrement_with_capacity();
    assert_eq!((bounded.as_value(), bounded.as_max()), (5, 8));
    let mut low = at(1, 0);
    low.decrement_with_capacity();
    assert_eq!((low.as_value(), low.as_max()), (0, 0));
    low.decrement_with_capacity();
    assert_eq!((low.as_value(), low.as_max()), (0, 0));
}
