use tyseq::Pair;
use tyseq::PartialTySeqMap;
use tyseq::TySeq;
use tyseq::Unit;
use tyseq::With;

fn five() -> Pair<i32, Pair<u32, Pair<u8, Pair<String, Unit<(i32, i32)>>>>> {
    Unit(1i32).with(2u32).with(3u8).with(String::from("string")).with((1i32, 2i32))
}

#[test]
fn builds_five_elements_in_order() {
    let s = five();
    assert_eq!(s.0, 1i32);
    assert_eq!(s.1.0, 2u32);
    assert_eq!(s.1.1.0, 3u8);
    assert_eq!(s.1.1.1.0, String::from("string"));
    assert_eq!(s.1.1.1.1.0, (1i32, 2i32));
}

#[test]
fn split_first_of_five() {
    let s = five();
    let (head, rest) = s.first();
    assert_eq!(head, 1i32);
    assert_eq!(rest.0, 2u32);
    assert_eq!(rest.1.0, 3u8);
    assert_eq!(rest.1.1.0, String::from("string"));
    assert_eq!(rest.1.1.1.0, (1i32, 2i32));
}

#[test]
fn split_last_of_five() {
    let s = five();
    let (prefix, last) = s.last();
    assert_eq!(last, (1i32, 2i32));
    assert_eq!(prefix.0, 1i32);
    assert_eq!(prefix.1.0, 2u32);
    assert_eq!(prefix.1.1.0, 3u8);
    assert_eq!(prefix.1.1.1.0, String::from("string"));
}

#[test]
fn cursor_walks_five_and_rebuilds() {
    let s = five();
    let c = s.next();
    assert_eq!(c.dst.0, 1i32);
    assert_eq!(c.src.0, 2u32);
    let c = c.next();
    assert_eq!(c.dst.0, 1i32);
    assert_eq!(c.dst.1.0, 2u32);
    assert_eq!(c.src.0, 3u8);
    let c = c.next();
    let c = c.next();
    let done = c.next();
    assert_eq!(done.0, 1i32);
    assert_eq!(done.1.0, 2u32);
    assert_eq!(done.1.1.0, 3u8);
    assert_eq!(done.1.1.1.0, String::from("string"));
    assert_eq!(done.1.1.1.1.0, (1i32, 2i32));
}

#[test]
fn cursor_replace_swaps_next_source_element() {
    let s = five();
    let c = s.next();
    let c = c.next();
    let (taken, c) = c.replace(99u8);
    assert_eq!(taken, 3u8);
    assert_eq!(c.src.0, 99u8);
    let c = c.next();
    let c = c.next();
    let done = c.next();
    assert_eq!(done.1.1.0, 99u8);
    assert_eq!(done.1.1.1.1.0, (1i32, 2i32));
}

#[test]
fn replace_on_sequence_keeps_tail() {
    let s: Pair<i32, Pair<u32, Pair<u8, Pair<String, Unit<(i32, i32)>>>>> = five();
    let (old, swapped) = s.replace(String::from("head"));
    assert_eq!(old, 1i32);
    assert_eq!(swapped.0, String::from("head"));
    assert_eq!(swapped.1.0, 2u32);
    assert_eq!(swapped.1.1.0, 3u8);
    assert_eq!(swapped.1.1.1.0, String::from("string"));
    assert_eq!(swapped.1.1.1.1.0, (1i32, 2i32));
}

#[test]
fn cursor_state_is_a_plain_record() {
    let c: PartialTySeqMap<Pair<u8, Unit<u8>>, Unit<bool>> =
        PartialTySeqMap { src: Pair(7u8, Unit(9u8)), dst: Unit(true) };
    assert_eq!(c.src.0, 7u8);
    assert_eq!(c.src.1.0, 9u8);
    assert!(c.dst.0);
}
