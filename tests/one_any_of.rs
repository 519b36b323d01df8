use std::str::FromStr;
use swagger::one_any_of::{AnyOf2, AnyOf3, OneOf2, OneOf3};
use swagger::one_any_of::{ANY_OF_NO_MATCH, ONE_OF_MULTIPLE_MATCHES, ONE_OF_NO_MATCH};

#[test]
fn anyof_prefers_first_matching_fromstr_number() {
    let v = AnyOf2::<u8, String>::from_str("123").unwrap();
    match v {
        AnyOf2::A(n) => assert_eq!(n, 123),
        AnyOf2::B(_) => panic!("expected A variant"),
    }
}

#[test]
fn oneof_fromstr_error_on_multiple_matches() {
    // String::from_str always succeeds and u8::from_str also succeeds here -> multiple matches
    let res = OneOf2::<u8, String>::from_str("123");
    assert!(res.is_err(), "expected error when multiple FromStr matches");
}

#[test]
fn oneof_fromstr_single_match() {
    let v = OneOf2::<bool, u8>::from_str("true").expect("bool should parse");
    match v {
        OneOf2::A(b) => assert!(b),
        _ => panic!("expected bool variant"),
    }
}

#[test]
fn oneof_fromstr_no_match() {
    let res = OneOf2::<u32, u16>::from_str("abc");
    assert!(res.is_err());
}

#[test]
fn anyof_fromstr_later_match() {
    let v = AnyOf2::<u32, bool>::from_str("true").expect("bool should parse");
    match v {
        AnyOf2::B(b) => assert!(b),
        _ => panic!("expected second bool variant"),
    }
}

#[test]
fn anyof_fromstr_no_match() {
    let res = AnyOf2::<u32, u16>::from_str("abc");
    assert!(res.is_err());
}

#[test]
fn oneof_u32_u64_ambiguous_literal() {
    let res = OneOf2::<u32, u64>::from_str("123");
    assert_eq!(res, Err(ONE_OF_MULTIPLE_MATCHES));
    assert_eq!(res.unwrap_err(), "data matched multiple within oneOf");
}

#[test]
fn anyof_u32_u64_prefers_first() {
    let v = AnyOf2::<u32, u64>::from_str("123").unwrap();
    assert_eq!(v, AnyOf2::A(123u32));
}

#[test]
fn anyof_u32_u64_large_number_takes_second() {
    let v = AnyOf2::<u32, u64>::from_str("5000000000").unwrap();
    assert_eq!(v, AnyOf2::B(5_000_000_000u64));
}

#[test]
fn oneof_no_match_message() {
    let res = OneOf2::<u32, u16>::from_str("abc");
    assert_eq!(res, Err(ONE_OF_NO_MATCH));
    assert_eq!(res.unwrap_err(), "data did not match any within oneOf");
}

#[test]
fn anyof_no_match_message() {
    let res = AnyOf2::<u32, u16>::from_str("abc");
    assert_eq!(res.unwrap_err(), ANY_OF_NO_MATCH);
    assert_eq!(ANY_OF_NO_MATCH, "data did not match any within anyOf");
}

#[test]
fn oneof_three_numeric_ambiguity() {
    let res = OneOf3::<u8, u16, u32>::from_str("5");
    assert_eq!(res, Err(ONE_OF_MULTIPLE_MATCHES));
}

#[test]
fn oneof_three_single_match_in_middle() {
    let res = OneOf3::<u8, bool, char>::from_str("true");
    assert_eq!(res, Ok(OneOf3::B(true)));
}

#[test]
fn anyof_three_middle_match() {
    let v = AnyOf3::<u32, bool, String>::from_str("true").unwrap();
    assert_eq!(v, AnyOf3::B(true));
}

#[test]
fn oneof_from_matches_counts_every_alternative() {
    assert_eq!(OneOf2::<u8, u8>::from_matches(None, Some(3)), Ok(OneOf2::B(3)));
    assert_eq!(OneOf2::<u8, u8>::from_matches(Some(1), Some(3)), Err(ONE_OF_MULTIPLE_MATCHES));
    assert_eq!(OneOf2::<u8, u8>::from_matches(None, None), Err(ONE_OF_NO_MATCH));
}

#[test]
fn anyof_from_matches_takes_first() {
    assert_eq!(AnyOf2::<u8, u8>::from_matches(Some(1), Some(3)), Ok(AnyOf2::A(1)));
    assert_eq!(AnyOf2::<u8, u8>::from_matches(None, Some(3)), Ok(AnyOf2::B(3)));
}
