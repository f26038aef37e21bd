//! The compact string scalars: exact decode behaviour, canonical encoding,
//! and the round trips.

use solc::ast::common::{decode_location, encode_location, SourceLocation};
use solc::ast::error::Error;
use solc::ast::types::{
    decode_elementary, deserialize_fixed, deserialize_fixed_bytes, deserialize_int,
    deserialize_ufixed, deserialize_uint, encode_elementary, ElementaryType,
};

#[test]
fn deserialize_uint_values() {
    assert_eq!(deserialize_uint("uint"), Ok(ElementaryType::Uint(256)));
    assert_eq!(deserialize_uint("uint8"), Ok(ElementaryType::Uint(8)));
    assert_eq!(deserialize_uint("uint16"), Ok(ElementaryType::Uint(16)));
    assert_eq!(deserialize_uint("uint32"), Ok(ElementaryType::Uint(32)));
    assert_eq!(deserialize_uint("uint64"), Ok(ElementaryType::Uint(64)));
    assert_eq!(deserialize_uint("uint128"), Ok(ElementaryType::Uint(128)));
    assert_eq!(deserialize_uint("uint256"), Ok(ElementaryType::Uint(256)));

    assert!(deserialize_uint("int8").is_err());
    assert!(deserialize_uint("uintabc").is_err());
}

#[test]
fn deserialize_int_values() {
    assert_eq!(deserialize_int("int"), Ok(ElementaryType::Int(256)));
    assert_eq!(deserialize_int("int8"), Ok(ElementaryType::Int(8)));
    assert_eq!(deserialize_int("int16"), Ok(ElementaryType::Int(16)));
    assert_eq!(deserialize_int("int32"), Ok(ElementaryType::Int(32)));
    assert_eq!(deserialize_int("int64"), Ok(ElementaryType::Int(64)));
    assert_eq!(deserialize_int("int128"), Ok(ElementaryType::Int(128)));
    assert_eq!(deserialize_int("int256"), Ok(ElementaryType::Int(256)));

    assert!(deserialize_int("uint8").is_err());
    assert!(deserialize_int("intabc").is_err());
}

#[test]
fn deserialize_fixed_bytes_values() {
    assert_eq!(deserialize_fixed_bytes("bytes1"), Ok(ElementaryType::FixedBytes(1)));
    assert_eq!(deserialize_fixed_bytes("bytes8"), Ok(ElementaryType::FixedBytes(8)));
    assert_eq!(deserialize_fixed_bytes("bytes16"), Ok(ElementaryType::FixedBytes(16)));
    assert_eq!(deserialize_fixed_bytes("bytes32"), Ok(ElementaryType::FixedBytes(32)));

    assert!(deserialize_fixed_bytes("bytes").is_err());
    assert!(deserialize_fixed_bytes("bytesabc").is_err());
}

#[test]
fn deserialize_ufixed_values() {
    assert_eq!(deserialize_ufixed("ufixed8x8"), Ok(ElementaryType::Ufixed(8, 8)));
    assert_eq!(deserialize_ufixed("ufixed16x16"), Ok(ElementaryType::Ufixed(16, 16)));
    assert_eq!(deserialize_ufixed("ufixed128x18"), Ok(ElementaryType::Ufixed(128, 18)));
    assert_eq!(deserialize_ufixed("ufixed32x8"), Ok(ElementaryType::Ufixed(32, 8)));

    assert!(deserialize_ufixed("fixed8x8").is_err());
    assert!(deserialize_ufixed("ufixed8").is_err());
    assert!(deserialize_ufixed("ufixed8x").is_err());
    assert!(deserialize_ufixed("ufixedx8").is_err());
    assert!(deserialize_ufixed("ufixedabcxdef").is_err());
    assert!(deserialize_ufixed("ufixed256x256").is_err());
}

#[test]
fn deserialize_fixed_valid() {
    assert_eq!(deserialize_fixed("fixed8x8"), Ok(ElementaryType::Fixed(8, 8)));
    assert_eq!(deserialize_fixed("fixed16x16"), Ok(ElementaryType::Fixed(16, 16)));
    assert_eq!(deserialize_fixed("fixed128x18"), Ok(ElementaryType::Fixed(128, 18)));
    assert_eq!(deserialize_fixed("fixed32x8"), Ok(ElementaryType::Fixed(32, 8)));

    assert!(deserialize_fixed("ufixed8x8").is_err());
    assert!(deserialize_fixed("fixed8").is_err());
    assert!(deserialize_fixed("fixed8x").is_err());
    assert!(deserialize_fixed("fixedx8").is_err());
    assert!(deserialize_fixed("fixedabcxdef").is_err());
    assert!(deserialize_fixed("fixed256x256").is_err());
}

#[test]
fn source_location_roundtrip() {
    let loc = SourceLocation { offset: 638, length: 8, source_index: 101 };
    let text = encode_location(&loc);
    let decoded = decode_location(&text).unwrap();
    assert_eq!(loc, decoded);
}

#[test]
fn source_location_format() {
    let loc = SourceLocation { offset: 638, length: 8, source_index: 101 };
    assert_eq!(encode_location(&loc), "638:8:101");

    assert!(decode_location("638:8").is_err());
    assert!(decode_location("638:8:101:extra").is_err());
    assert!(decode_location("abc:8:101").is_err());
    assert!(decode_location("638:xyz:101").is_err());
    assert!(decode_location("638:8:abc").is_err());
}

#[test]
fn location_rejections_name_the_part() {
    assert!(matches!(decode_location("638:8"), Err(Error::InvalidLocationFormat(_))));
    assert!(matches!(decode_location("638:8:101:extra"), Err(Error::InvalidLocationFormat(_))));
    assert!(matches!(decode_location("abc:8:101"), Err(Error::InvalidOffset(_))));
    assert!(matches!(decode_location("638:xyz:101"), Err(Error::InvalidLength(_))));
    assert!(matches!(decode_location("638:8:abc"), Err(Error::InvalidSourceIndex(_))));
    assert!(matches!(deserialize_uint("uint9999999999"), Err(Error::InvalidSize(_))));
}

#[test]
fn elementary_type_enum_roundtrip() {
    let cases = vec![
        (ElementaryType::Uint(256), "uint256"),
        (ElementaryType::Int(128), "int128"),
        (ElementaryType::Address, "address"),
        (ElementaryType::Payable, "payable"),
        (ElementaryType::Bool, "bool"),
        (ElementaryType::String, "string"),
        (ElementaryType::Bytes, "bytes"),
        (ElementaryType::FixedBytes(32), "bytes32"),
        (ElementaryType::Ufixed(128, 18), "ufixed128x18"),
        (ElementaryType::Fixed(128, 18), "fixed128x18"),
    ];
    for (value, spelling) in cases {
        assert_eq!(encode_elementary(&value), spelling);
        assert_eq!(decode_elementary(spelling), Ok(value));
    }
}

#[test]
fn default_widths() {
    assert_eq!(decode_elementary("uint"), Ok(ElementaryType::Uint(256)));
    assert_eq!(decode_elementary("int"), Ok(ElementaryType::Int(256)));
}

#[test]
fn unknown_spelling_is_rejected() {
    assert!(matches!(decode_elementary("tuple"), Err(Error::UnknownElementaryType(_))));
}
