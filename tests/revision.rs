use couchdb::revision::{new_revision_from_string, Revision};
use std::cmp::Ordering;

#[test]
fn test_revision() {
    let r1 = new_revision_from_string("1-1234".to_string());

    let r2 = r1.clone();
    assert!(r1 == r2);
    assert!(!(r1 != r2));
    assert!(r1 <= r2);
    assert!(!(r1 < r2));
    assert!(r2 <= r1);
    assert!(!(r2 < r1));
    let r2 = new_revision_from_string("2-1234".to_string());
    assert!(!(r1 == r2));
    assert!(r1 != r2);
    assert!(r1 <= r2);
    assert!(r1 < r2);
    assert!(!(r2 <= r1));
    assert!(!(r2 < r1));
}

#[test]
fn equal_texts_give_equal_revisions() {
    let a = Revision::from_string("3-abc".to_string());
    let b = Revision::from_string("3-abc".to_string());
    let c = Revision::from_string("3-abd".to_string());
    assert!(a == b);
    assert!(a != c);
    assert_eq!(a.compare(&b), Ordering::Equal);
    assert_eq!(a.partial_cmp(&b), Some(Ordering::Equal));
}

#[test]
fn order_is_lexicographic_not_numeric() {
    let later = Revision::from_string("2-1234".to_string());
    let earlier = Revision::from_string("1-1234".to_string());
    assert!(later > earlier);
    let ten = Revision::from_string("10-aaa".to_string());
    let two = Revision::from_string("2-bbb".to_string());
    assert!(ten < two);
    assert_eq!(ten.compare(&two), Ordering::Less);
    assert_eq!(two.compare(&ten), Ordering::Greater);
    assert_eq!(ten.cmp(&two), Ordering::Less);
}

#[test]
fn prefix_sorts_first() {
    let short = Revision::from_string("1-ab".to_string());
    let long = Revision::from_string("1-abc".to_string());
    let empty = Revision::from_string(String::new());
    assert!(short < long);
    assert_eq!(long.compare(&short), Ordering::Greater);
    assert!(empty < short);
    assert_eq!(empty.compare(&Revision::from_string(String::new())), Ordering::Equal);
}

#[test]
fn order_follows_bytes_beyond_ascii() {
    let a = Revision::from_string("1-z".to_string());
    let b = Revision::from_string("1-\u{e9}".to_string());
    assert!(a < b);
    assert_eq!(a.cmp(&b), "1-z".cmp("1-\u{e9}"));
}

#[test]
fn clone_is_independent_of_its_source() {
    let first = Revision::from_string("5-fff".to_string());
    let copy = first.clone();
    assert!(copy == first);
    drop(first);
    let other = Revision::from_string("5-fff".to_string());
    assert!(copy == other);
    assert_eq!(copy.compare(&other), Ordering::Equal);
    assert_eq!(copy.display(), "5-fff");
}

#[test]
fn display_gives_back_the_text() {
    let r = Revision::from_string("7-0123456789abcdef".to_string());
    assert_eq!(r.display(), "7-0123456789abcdef");
    assert_eq!(r.as_text(), "7-0123456789abcdef");
    let text: &str = r.as_ref();
    assert_eq!(text, "7-0123456789abcdef");
    let w = new_revision_from_string("x".to_string());
    assert_eq!(w.display(), "x");
}
