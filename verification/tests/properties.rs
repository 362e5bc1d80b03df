use tyseq::Pair;
use tyseq::TySeq;
use tyseq::Unit;
use tyseq::With;

#[test]
fn builder_turns_unit_into_two_elements() {
    let s = Unit(String::from("a")).with(5u16);
    assert_eq!(s.0, String::from("a"));
    assert_eq!(s.1.0, 5u16);
}

#[test]
fn append_then_first_base_shape() {
    let s = Unit(10i32).with(20i8);
    let grown = s.with(true);
    let (head, tail) = grown.first();
    assert_eq!(head, 10i32);
    assert_eq!(tail.0, 20i8);
    assert!(tail.1.0);
}

#[test]
fn append_then_first_recursive_shape() {
    let s = Unit(10i32).with(20i8).with(30u64);
    let grown = s.with(String::from("end"));
    let (head, tail) = grown.first();
    assert_eq!(head, 10i32);
    assert_eq!(tail.0, 20i8);
    assert_eq!(tail.1.0, 30u64);
    assert_eq!(tail.1.1.0, String::from("end"));
}

#[test]
fn append_then_last_returns_the_original() {
    let s = Unit(10i32).with(20i8).with(30u64);
    let grown = s.with(String::from("end"));
    let (prefix, last) = grown.last();
    assert_eq!(last, String::from("end"));
    assert_eq!(prefix.0, 10i32);
    assert_eq!(prefix.1.0, 20i8);
    assert_eq!(prefix.1.1.0, 30u64);
}

#[test]
fn first_and_last_return_the_placed_values() {
    let marker_head = String::from("head value");
    let marker_last = String::from("last value");
    let s = Unit(marker_head.clone()).with(0u8).with(marker_last.clone());
    let (prefix, last) = s.last();
    assert_eq!(last, marker_last);
    let (head, _rest) = prefix.first();
    assert_eq!(head, marker_head);
}

#[test]
fn walk_conserves_elements() {
    let s = Unit(11u64).with(22u64).with(33u64);
    let mut original: Vec<u64> = vec![11u64, 22u64, 33u64];
    original.sort();

    let c = s.next();
    let mut held: Vec<u64> = vec![c.src.0, c.src.1.0, c.dst.0];
    held.sort();
    assert_eq!(held, original);

    let c = c.next();
    let mut held: Vec<u64> = vec![c.src.0, c.dst.0, c.dst.1.0];
    held.sort();
    assert_eq!(held, original);

    let done = c.next();
    let mut held: Vec<u64> = vec![done.0, done.1.0, done.1.1.0];
    held.sort();
    assert_eq!(held, original);
}

#[test]
fn walk_of_three_keeps_order() {
    let s = Unit(1u64).with(2u64).with(3u64);
    let done = s.next().next().next();
    assert_eq!(done.0, 1u64);
    assert_eq!(done.1.0, 2u64);
    assert_eq!(done.1.1.0, 3u64);
}

#[test]
fn replace_while_destination_is_single() {
    let s = Unit(1u64).with(2u64).with(3u64);
    let c = s.next();
    let (taken, c) = c.replace(99u64);
    assert_eq!(taken, 2u64);
    assert_eq!(c.src.0, 99u64);
    let done = c.next().next();
    assert_eq!(done.0, 1u64);
    assert_eq!(done.1.0, 99u64);
    assert_eq!(done.1.1.0, 3u64);
}

#[test]
fn replace_at_the_final_element() {
    let s = Unit(1u64).with(2u64).with(3u64);
    let c = s.next().next();
    let (taken, c) = c.replace(77u64);
    assert_eq!(taken, 3u64);
    assert_eq!(c.src.0, 77u64);
    let done = c.next();
    assert_eq!(done.0, 1u64);
    assert_eq!(done.1.0, 2u64);
    assert_eq!(done.1.1.0, 77u64);
}

#[test]
fn replace_changes_the_head_type() {
    let s = Unit(1u64).with(2u64).with(3u64);
    let (old, swapped) = s.replace(String::from("new head"));
    assert_eq!(old, 1u64);
    assert_eq!(swapped.0, String::from("new head"));
    assert_eq!(swapped.1.0, 2u64);
    assert_eq!(swapped.1.1.0, 3u64);
}
