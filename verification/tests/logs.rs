use cala_core::log::say;
use cala_core::os::{c_ssize, c_usize};

#[test]
fn say_ends_the_text_with_a_line_feed() {
    assert_eq!(say("Hello, world!"), b"Hello, world!\n".to_vec());
    assert_eq!(say(""), vec![10]);
    assert_eq!(say("a\nb"), vec![97, 10, 98, 10]);
}

#[test]
fn say_writes_the_text_in_utf8() {
    assert_eq!(say("\u{263A}"), vec![0xE2, 0x98, 0xBA, 10]);
    assert_eq!(say("\u{1F600}"), vec![0xF0, 0x9F, 0x98, 0x80, 10]);
}

#[test]
fn c_usize_holds_the_number() {
    assert_eq!(usize::from(c_usize::from(0)), 0);
    assert_eq!(usize::from(c_usize::from(12)), 12);
    assert_eq!(usize::from(c_usize::from(usize::MAX)), usize::MAX);
    let size: c_usize = 5.into();
    let copy = size;
    assert_eq!(usize::from(size), usize::from(copy));
}

#[test]
fn c_ssize_holds_the_number() {
    assert_eq!(isize::from(c_ssize::from(0)), 0);
    assert_eq!(isize::from(c_ssize::from(-1)), -1);
    assert_eq!(isize::from(c_ssize::from(isize::MIN)), isize::MIN);
    assert_eq!(isize::from(c_ssize::from(isize::MAX)), isize::MAX);
}
