//! The node codec on concrete documents: identifiers, type descriptions,
//! dispatch, and the decode–encode–decode round trip.

use solc::ast::canon::DecodeError;
use solc::ast::dec_expr::decode_expression;
use solc::ast::dec_leaf::{decode_identifier, decode_type_descriptions};
use solc::ast::enc_node::{encode_expression, encode_identifier, encode_type_descriptions};
use solc::ast::common::{SourceLocation, TypeDescriptions};
use solc::ast::identifier::Identifier;
use solc::ast::Expression;
use solc::json::JsonValue;

fn pair(k: &str, v: JsonValue) -> (String, JsonValue) {
    (k.to_string(), v)
}

fn sample_identifier_members() -> Vec<(String, JsonValue)> {
    vec![
        pair("id", JsonValue::Int(64257)),
        pair("name", JsonValue::Str("_lexCore".to_string())),
        pair("nodeType", JsonValue::Str("Identifier".to_string())),
        pair("overloadedDeclarations", JsonValue::Arr(vec![])),
        pair("referencedDeclaration", JsonValue::Int(64271)),
        pair("src", JsonValue::Str("638:8:101".to_string())),
        pair(
            "typeDescriptions",
            JsonValue::Obj(vec![
                pair("typeIdentifier", JsonValue::Str("t_address".to_string())),
                pair("typeString", JsonValue::Str("address".to_string())),
            ]),
        ),
    ]
}

#[test]
fn identifier_roundtrip() {
    let original = Identifier {
        id: 64257,
        name: "_lexCore".to_string(),
        node_type: "Identifier".to_string(),
        overloaded_declarations: vec![],
        referenced_declaration: Some(64271),
        src: SourceLocation { offset: 638, length: 8, source_index: 101 },
        type_descriptions: TypeDescriptions {
            type_identifier: Some("t_address".to_string()),
            type_string: Some("address".to_string()),
        },
        argument_types: None,
    };
    let members = encode_identifier(&original);
    let decoded = decode_identifier(&members).unwrap();
    assert_eq!(original, decoded);
    assert!(members.contains(&pair("src", JsonValue::Str("638:8:101".to_string()))));
}

#[test]
fn identifier_with_type_descriptions() {
    let mut members = sample_identifier_members();
    members[6] = pair("typeDescriptions", JsonValue::Obj(vec![]));
    let identifier = decode_identifier(&members).unwrap();
    assert_eq!(identifier.name, "_lexCore");
    assert_eq!(identifier.type_descriptions.type_identifier, None);
    assert_eq!(identifier.type_descriptions.type_string, None);

    let identifier = decode_identifier(&sample_identifier_members()).unwrap();
    assert_eq!(identifier.type_descriptions.type_identifier, Some("t_address".to_string()));
    assert_eq!(identifier.type_descriptions.type_string, Some("address".to_string()));
}

#[test]
fn identifier_overloaded_declarations() {
    let identifier = decode_identifier(&sample_identifier_members()).unwrap();
    assert!(identifier.overloaded_declarations.is_empty());

    let mut members = sample_identifier_members();
    members[3] = pair(
        "overloadedDeclarations",
        JsonValue::Arr(vec![JsonValue::Int(100), JsonValue::Int(200), JsonValue::Int(300)]),
    );
    let identifier = decode_identifier(&members).unwrap();
    assert_eq!(identifier.overloaded_declarations, vec![100, 200, 300]);
}

#[test]
fn source_location_in_identifier() {
    let identifier = decode_identifier(&sample_identifier_members()).unwrap();
    assert_eq!(identifier.src.offset, 638);
    assert_eq!(identifier.src.length, 8);
    assert_eq!(identifier.src.source_index, 101);

    let mut changed = identifier;
    changed.src = SourceLocation { offset: 9999, length: 42, source_index: 7 };
    let members = encode_identifier(&changed);
    assert!(members.contains(&pair("src", JsonValue::Str("9999:42:7".to_string()))));
    let decoded = decode_identifier(&members).unwrap();
    assert_eq!(decoded.src.offset, 9999);
    assert_eq!(decoded.src.length, 42);
    assert_eq!(decoded.src.source_index, 7);
}

#[test]
fn type_descriptions_roundtrip() {
    let original = TypeDescriptions {
        type_identifier: Some("t_uint256".to_string()),
        type_string: Some("uint256".to_string()),
    };
    let members = encode_type_descriptions(&original);
    let decoded = decode_type_descriptions(&members).unwrap();
    assert_eq!(original, decoded);
}

#[test]
fn type_descriptions_roundtrip_empty() {
    let decoded = decode_type_descriptions(&vec![]).unwrap();
    assert_eq!(decoded.type_identifier, None);
    assert_eq!(decoded.type_string, None);

    let encoded = encode_type_descriptions(&decoded);
    assert_eq!(encoded.len(), 0);

    let roundtrip = decode_type_descriptions(&encoded).unwrap();
    assert_eq!(decoded, roundtrip);
}

#[test]
fn missing_required_member_names_the_member() {
    let mut members = sample_identifier_members();
    members.remove(0);
    match decode_identifier(&members) {
        Err(DecodeError::Missing(path)) => assert_eq!(path, "id"),
        other => panic!("expected a missing-member failure, got {:?}", other),
    }
}

#[test]
fn expression_roundtrip_through_dispatch() {
    let doc = JsonValue::Obj(vec![
        pair("nodeType", JsonValue::Str("ExpressionStatement".to_string())),
        pair("id", JsonValue::Int(7)),
        pair("expression", JsonValue::Obj(sample_identifier_members())),
        pair("src", JsonValue::Str("0:4:0".to_string())),
    ]);
    let first = decode_expression(&doc).unwrap();
    let re_encoded = encode_expression(&first);
    let second = decode_expression(&re_encoded).unwrap();
    assert_eq!(first, second);
}

#[test]
fn unknown_discriminator_is_distinct() {
    let unknown = JsonValue::Obj(vec![pair("nodeType", JsonValue::Str("Sparkle".to_string()))]);
    assert!(matches!(
        decode_expression(&unknown),
        Err(DecodeError::UnknownDiscriminator(_))
    ));

    let malformed_known =
        JsonValue::Obj(vec![pair("nodeType", JsonValue::Str("Identifier".to_string()))]);
    match decode_expression(&malformed_known) {
        Err(DecodeError::UnknownDiscriminator(_)) => {
            panic!("a malformed known kind must not be reported as unknown")
        }
        Err(_) => {}
        Ok(_) => panic!("an identifier without members must not decode"),
    }
}

#[test]
fn nested_failure_carries_its_path() {
    let mut inner = sample_identifier_members();
    inner[5] = pair("src", JsonValue::Str("oops".to_string()));
    let doc = JsonValue::Obj(vec![
        pair("nodeType", JsonValue::Str("ExpressionStatement".to_string())),
        pair("id", JsonValue::Int(7)),
        pair("expression", JsonValue::Obj(inner)),
        pair("src", JsonValue::Str("0:4:0".to_string())),
    ]);
    match decode_expression(&doc) {
        Err(e) => {
            let path = e.path().expect("the failure names a member").clone();
            assert_eq!(path, "expression.src");
        }
        Ok(_) => panic!("a malformed nested location must not decode"),
    }
}
