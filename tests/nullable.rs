use swagger::Nullable;

#[test]
fn three_states_of_a_property() {
    let absent: Option<Nullable<u32>> = None;
    let null: Option<Nullable<u32>> = Some(Nullable::Null);
    let value: Option<Nullable<u32>> = Some(Nullable::Present(3));
    assert!(absent.is_none());
    assert!(null.unwrap().is_null());
    assert!(value.unwrap().is_present());
    assert_ne!(null, value);
    assert_ne!(absent, null);
}

#[test]
fn nullable_accessors() {
    let p = Nullable::Present(5);
    let n: Nullable<i32> = Nullable::Null;
    assert_eq!(p.as_ref(), Nullable::Present(&5));
    assert_eq!(p.unwrap(), 5);
    assert_eq!(n.unwrap_or(7), 7);
    assert_eq!(p.unwrap_or(7), 5);
    assert_eq!(n.ok_or("null"), Err("null"));
    assert_eq!(p.ok_or("null"), Ok(5));
    assert_eq!(p.and(Nullable::Present("x")), Nullable::Present("x"));
    assert_eq!(n.and(Nullable::Present("x")), Nullable::Null);
    assert_eq!(n.or(Nullable::Present(1)), Nullable::Present(1));
    assert_eq!(p.or(Nullable::Present(1)), Nullable::Present(5));
    assert_eq!(p.into_option(), Some(5));
    assert_eq!(n.into_option(), None);
    assert_eq!(Nullable::from_option(Some(2)), Nullable::Present(2));
    assert_eq!(Nullable::<u8>::from_option(None), Nullable::Null);
    let mut m = Nullable::Present(String::from("a"));
    assert_eq!(m.take(), Nullable::Present(String::from("a")));
    assert!(m.is_null());
}
