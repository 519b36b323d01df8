use swagger::{IntoHeaderValue, XSpanIdString, X_SPAN_ID};

fn is_v4(s: &str) -> bool {
    let b = s.as_bytes();
    b.len() == 36
        && b.iter().enumerate().all(|(i, c)| match i {
            8 | 13 | 18 | 23 => *c == b'-',
            _ => c.is_ascii_digit() || (b'a'..=b'f').contains(c),
        })
        && b[14] == b'4'
}

#[test]
fn xspanid_test() {
    let generated = XSpanIdString::get_or_generate(Some("Â£".as_bytes()));
    assert!(is_v4(&generated.0));

    let valid_uuid = "123e4567-e89b-12d3-a456-426655440000";

    assert_eq!(valid_uuid, &XSpanIdString::get_or_generate(Some(valid_uuid.as_bytes())).0);
}

#[test]
fn header_text_is_kept_as_is() {
    assert_eq!(XSpanIdString::get_or_generate(Some(b"abc 123\t")).0, "abc 123\t");
    assert_eq!(X_SPAN_ID, "X-Span-ID");
}

#[test]
fn missing_header_generates_fresh_ids() {
    let a = XSpanIdString::get_or_generate(None);
    let b = XSpanIdString::get_or_generate(None);
    assert!(is_v4(&a.0));
    assert!(is_v4(&b.0));
    assert_ne!(a.0, b.0);
    assert!(is_v4(&XSpanIdString::default().to_string()));
}

#[test]
fn control_bytes_generate_an_id() {
    let id = XSpanIdString::get_or_generate(Some(b"a\x7fb"));
    assert!(is_v4(&id.0));
}

#[test]
fn header_lists_are_trimmed_and_skip_empty_items() {
    let v = IntoHeaderValue::<Vec<String>>::from_header(b" a, b ,,\tc\t, ");
    assert_eq!(v.0, vec!["a".to_string(), "b".to_string(), "c".to_string()]);
    assert_eq!(v.to_header_text(), "a, b, c");
    let empty = IntoHeaderValue::<Vec<String>>::from_header(b"");
    assert!(empty.0.is_empty());
    assert_eq!(empty.to_header_text(), "");
}

#[test]
fn header_text_values() {
    let v = IntoHeaderValue::<String>::from_header(b"text/plain");
    assert_eq!(v.0, "text/plain");
    assert_eq!(v.to_header_text(), "text/plain");
}

#[test]
fn header_integers() {
    assert_eq!(IntoHeaderValue::<u64>::from_header(b"42").map(|h| h.0), Some(42));
    assert_eq!(IntoHeaderValue::<i16>::from_header(b"-32768").map(|h| h.0), Some(-32768));
    assert!(IntoHeaderValue::<i16>::from_header(b"32768").is_none());
    assert!(IntoHeaderValue::<u32>::from_header(b"-1").is_none());
    assert!(IntoHeaderValue::<usize>::from_header(b"x").is_none());
    assert_eq!(IntoHeaderValue(-7i32).to_header_text(), "-7");
    assert_eq!(IntoHeaderValue(1234usize).to_header_text(), "1234");
    assert_eq!(IntoHeaderValue(i64::MIN).to_header_text(), i64::MIN.to_string());
}
