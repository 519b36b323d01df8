use swagger::serde::de::Error as DeError;
use swagger::serde::form::{from_slice, from_str, to_string};
use swagger::serde::ser::Error as SerError;
use swagger::serde::{Kind, Scalar, Shape, Value};

fn s(t: &str) -> Scalar {
    Scalar::Str(t.to_string())
}

// Style: form. Explode = false

#[test]
fn test_to_string_empty_none() {
    let v = Value::Optional(None);
    assert_eq!(&to_string(&v).unwrap(), "");
}

#[test]
fn test_to_string_empty_unit() {
    let v = Value::Single(Scalar::Unit);
    assert_eq!(&to_string(&v).unwrap(), "");
}

#[test]
fn test_to_string_some_string() {
    let v = Value::Optional(Some(s("blue")));
    assert_eq!(&to_string(&v).unwrap(), "blue");
}

#[test]
fn test_to_string_string() {
    let v = Value::Single(s("blue"));
    assert_eq!(&to_string(&v).unwrap(), "blue");
}

#[test]
fn test_to_string_array() {
    let v = Value::List(vec![s("blue"), s("black"), s("brown")]);
    assert_eq!(&to_string(&v).unwrap(), "blue,black,brown");
}

fn object() -> Value {
    Value::Pairs(vec![
        (s("R"), Scalar::Int(100)),
        (s("G"), Scalar::Int(200)),
        (s("B"), Scalar::Int(150)),
    ])
}

#[test]
fn test_to_string_object() {
    assert_eq!(&to_string(&object()).unwrap(), "R,100,G,200,B,150");
}

#[test]
fn test_to_string_map() {
    let v = Value::Pairs(vec![
        (s("R"), Scalar::UInt(100)),
        (s("G"), Scalar::UInt(200)),
        (s("B"), Scalar::UInt(150)),
    ]);
    to_string(&v).unwrap();
}

#[test]
fn test_to_string_escaped() {
    let v = Value::Pairs(vec![
        (s("semi"), s(";")),
        (s("dot"), s(".")),
        (s("comma"), s(",")),
    ]);
    assert_eq!(&to_string(&v).unwrap(), "semi,%3B,dot,.,comma,%2C");
}

#[test]
fn test_to_string_enum() {
    let v = Value::Single(Scalar::UnitVariant("Yes".to_string()));
    assert_eq!(&to_string(&v).unwrap(), "Yes");
}

#[test]
fn to_string_rejects_data_variants() {
    let v = Value::List(vec![s("a"), Scalar::DataVariant("Point".to_string())]);
    assert_eq!(to_string(&v), Err(SerError::UnsupportedEnumType));
}

#[test]
fn to_string_scalars() {
    assert_eq!(to_string(&Value::Single(Scalar::Bool(false))).unwrap(), "false");
    assert_eq!(to_string(&Value::Single(Scalar::Int(-42))).unwrap(), "-42");
    assert_eq!(to_string(&Value::Single(Scalar::UInt(7))).unwrap(), "7");
    assert_eq!(to_string(&Value::Single(Scalar::Char(';'))).unwrap(), ";");
    assert_eq!(to_string(&Value::Single(Scalar::Bytes(vec![0, b'a', 255]))).unwrap(), "%00a%FF");
    assert_eq!(to_string(&Value::Single(s("a b/é"))).unwrap(), "a%20b%2F%C3%A9");
}

#[test]
fn test_from_str_string() {
    assert_eq!(Value::Single(s("blue")), from_str("blue", Shape::Single(Kind::Str)).unwrap());
}

#[test]
fn test_from_str_none() {
    assert_eq!(Value::Optional(None), from_str("", Shape::Optional(Kind::Unit)).unwrap());
}

#[test]
fn test_from_str_empty_unit() {
    assert_eq!(Value::Single(Scalar::Unit), from_str("", Shape::Single(Kind::Unit)).unwrap());
}

#[test]
fn test_from_str_some_string() {
    assert_eq!(
        Value::Optional(Some(s("blue"))),
        from_str("blue", Shape::Optional(Kind::Str)).unwrap()
    );
}

#[test]
fn test_from_str_array() {
    assert_eq!(
        Value::List(vec![s("blue"), s("black"), s("brown")]),
        from_str("blue,black,brown", Shape::List(Kind::Str)).unwrap(),
    );
}

#[test]
fn test_from_str_object() {
    assert_eq!(object(), from_str("R,100,G,200,B,150", Shape::Pairs(Kind::Str, Kind::I32)).unwrap());
}

#[test]
fn test_from_str_map() {
    let expected = Value::Pairs(vec![
        (s("R"), Scalar::Int(100)),
        (s("G"), Scalar::Int(200)),
        (s("B"), Scalar::Int(150)),
    ]);
    assert_eq!(expected, from_str("R,100,G,200,B,150", Shape::Pairs(Kind::Str, Kind::I32)).unwrap());
}

#[test]
fn test_from_str_escaped() {
    let expected = Value::Pairs(vec![
        (s("semi"), s(";")),
        (s("dot"), s(".")),
        (s("comma"), s(",")),
    ]);
    assert_eq!(
        expected,
        from_str("semi,%3B,dot,.,comma,%2C", Shape::Pairs(Kind::Str, Kind::Str)).unwrap()
    );
}

#[test]
fn test_from_str_enum() {
    let expected = Value::Single(Scalar::UnitVariant("Yes".to_string()));
    assert_eq!(expected, from_str("Yes", Shape::Single(Kind::Variant)).unwrap())
}

#[test]
fn object_round_trip() {
    let text = to_string(&object()).unwrap();
    assert_eq!(text, "R,100,G,200,B,150");
    assert_eq!(from_str(&text, Shape::Pairs(Kind::Str, Kind::I32)).unwrap(), object());
}

#[test]
fn from_str_errors() {
    assert_eq!(from_str("x", Shape::Single(Kind::Unit)), Err(DeError::NonEmptyUnit));
    assert_eq!(from_str("yes", Shape::Single(Kind::Bool)), Err(DeError::InvalidBool("yes".to_string())));
    assert_eq!(from_str("300", Shape::Single(Kind::U8)), Err(DeError::ExpectedInt));
    assert_eq!(from_str("-1", Shape::Single(Kind::U32)), Err(DeError::ExpectedInt));
    assert_eq!(from_str("ab", Shape::Single(Kind::Char)), Err(DeError::MultiCharacterChar('b')));
    assert_eq!(from_str("", Shape::Single(Kind::Char)), Err(DeError::EmptyChar));
    assert_eq!(from_str("%FF", Shape::Single(Kind::Str)), Err(DeError::InnerUtf8));
    assert_eq!(from_slice(&[0xff], Shape::Single(Kind::Str)), Err(DeError::OuterUtf8));
    assert_eq!(from_slice(&[b'a', 0xff], Shape::List(Kind::Bytes)), Err(DeError::OuterUtf8));
    assert_eq!(
        from_str("R,100,G", Shape::Pairs(Kind::Str, Kind::I32)),
        Err(DeError::MissingValueForObject)
    );
    assert_eq!(from_str("1,x,3", Shape::List(Kind::I64)), Err(DeError::ExpectedInt));
}

#[test]
fn from_str_scalars() {
    assert_eq!(from_str("true", Shape::Single(Kind::Bool)).unwrap(), Value::Single(Scalar::Bool(true)));
    assert_eq!(from_str("-128", Shape::Single(Kind::I8)).unwrap(), Value::Single(Scalar::Int(-128)));
    assert_eq!(from_str("+7", Shape::Single(Kind::U16)).unwrap(), Value::Single(Scalar::UInt(7)));
    assert_eq!(from_str("%3B", Shape::Single(Kind::Char)).unwrap(), Value::Single(Scalar::Char(';')));
    assert_eq!(
        from_slice(b"%00a%zz", Shape::Single(Kind::Bytes)).unwrap(),
        Value::Single(Scalar::Bytes(vec![0, b'a', b'%', b'z', b'z']))
    );
    assert_eq!(from_str("", Shape::List(Kind::Str)).unwrap(), Value::List(vec![s("")]));
    assert_eq!(
        from_str("a,,b", Shape::List(Kind::Str)).unwrap(),
        Value::List(vec![s("a"), s(""), s("b")])
    );
}

#[test]
fn raw_text_is_kept_as_is() {
    assert_eq!(to_string(&Value::Single(Scalar::Raw("1.5".to_string()))).unwrap(), "1.5");
    assert_eq!(
        from_str("1.5%", Shape::Single(Kind::Raw)).unwrap(),
        Value::Single(Scalar::Raw("1.5%".to_string()))
    );
}
