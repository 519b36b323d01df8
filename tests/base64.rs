use std::str::FromStr;
use swagger::ByteArray;

#[test]
fn encodes_standard_base64() {
    assert_eq!(ByteArray(b"foo:bar".to_vec()).to_string(), "Zm9vOmJhcg==");
    assert_eq!(ByteArray(vec![]).to_string(), "");
    assert_eq!(ByteArray(vec![0xfb, 0xff]).to_string(), "+/8=");
}

#[test]
fn decodes_standard_base64() {
    assert_eq!(ByteArray::from_str("Zm9vOmJhcg==").unwrap(), ByteArray(b"foo:bar".to_vec()));
    assert!(ByteArray::from_str("Zm9vOmJhcg").is_err());
    assert!(ByteArray::from_str("not base64!").is_err());
}

#[test]
fn round_trips_bytes() {
    for bytes in [vec![], vec![0u8], vec![1, 2], vec![255, 254, 253, 0, 17], (0u8..=255).collect()] {
        let a = ByteArray(bytes.clone());
        assert_eq!(ByteArray::from_base64(&a.to_string()).unwrap().0, bytes);
    }
}
