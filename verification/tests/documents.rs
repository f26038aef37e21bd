//! Whole documents: decoding the root, dispatch over every discriminator,
//! the documentation union, order preservation, and error localization.

use solc::ast::canon::DecodeError;
use solc::ast::dec_decl::{decode_contract_node, decode_document, decode_source_unit_node};
use solc::ast::dec_expr::{decode_expression, decode_function_call_expression};
use solc::ast::dec_decl::decode_enum_definition;
use solc::ast::dec_leaf::decode_documentation;
use solc::ast::dec_stmt::decode_statement;
use solc::ast::dec_type::decode_type_name;
use solc::ast::enc_node::encode_document;
use solc::ast::locate::localize_error;
use solc::ast::{Documentation, SourceUnitNode};
use solc::json::JsonValue;

fn pair(k: &str, v: JsonValue) -> (String, JsonValue) {
    (k.to_string(), v)
}

fn s(v: &str) -> JsonValue {
    JsonValue::Str(v.to_string())
}

fn sample_document() -> JsonValue {
    let pragma = JsonValue::Obj(vec![
        pair("nodeType", s("PragmaDirective")),
        pair("id", JsonValue::Int(2)),
        pair("literals", JsonValue::Arr(vec![s("solidity")])),
        pair("src", s("0:24:0")),
    ]);
    let import = JsonValue::Obj(vec![
        pair("nodeType", s("ImportDirective")),
        pair("id", JsonValue::Int(3)),
        pair("absolutePath", s("b.sol")),
        pair("file", s("./b.sol")),
        pair("src", s("25:16:0")),
    ]);
    let contract = JsonValue::Obj(vec![
        pair("nodeType", s("ContractDefinition")),
        pair("id", JsonValue::Int(4)),
        pair("name", s("A")),
        pair("contractKind", s("contract")),
        pair("abstract", JsonValue::Bool(false)),
        pair("fullyImplemented", JsonValue::Bool(true)),
        pair("linearizedBaseContracts", JsonValue::Arr(vec![JsonValue::Int(4)])),
        pair("src", s("42:13:0")),
    ]);
    JsonValue::Obj(vec![
        pair("id", JsonValue::Int(1)),
        pair("absolutePath", s("a.sol")),
        pair(
            "exportedSymbols",
            JsonValue::Obj(vec![pair("A", JsonValue::Arr(vec![JsonValue::Int(4)]))]),
        ),
        pair("src", s("0:55:0")),
        pair("nodes", JsonValue::Arr(vec![pragma, import, contract])),
        pair("license", s("MIT")),
    ])
}

fn node_tags(doc: &JsonValue) -> Vec<String> {
    let members = match doc {
        JsonValue::Obj(members) => members,
        _ => panic!("the document must be an object"),
    };
    let nodes = members
        .iter()
        .find(|(k, _)| k == "nodes")
        .map(|(_, v)| v)
        .expect("the document has nodes");
    let elems = match nodes {
        JsonValue::Arr(elems) => elems,
        _ => panic!("the nodes member must be an array"),
    };
    elems
        .iter()
        .map(|e| match e {
            JsonValue::Obj(members) => match &members[0].1 {
                JsonValue::Str(tag) => tag.clone(),
                _ => panic!("the discriminator must be a string"),
            },
            _ => panic!("each node must be an object"),
        })
        .collect()
}

#[test]
fn document_round_trip() {
    let doc = sample_document();
    let first = decode_document(&doc).unwrap();
    let re_encoded = encode_document(&first);
    let second = decode_document(&re_encoded).unwrap();
    assert_eq!(first, second);
}

#[test]
fn order_preservation() {
    let doc = sample_document();
    let unit = decode_document(&doc).unwrap();
    assert_eq!(unit.nodes.len(), 3);
    assert!(matches!(unit.nodes[0], SourceUnitNode::PragmaDirective(_)));
    assert!(matches!(unit.nodes[1], SourceUnitNode::ImportDirective(_)));
    assert!(matches!(unit.nodes[2], SourceUnitNode::ContractDefinition(_)));

    let re_encoded = encode_document(&unit);
    assert_eq!(
        node_tags(&re_encoded),
        vec!["PragmaDirective", "ImportDirective", "ContractDefinition"]
    );
}

fn bare(tag: &str) -> JsonValue {
    JsonValue::Obj(vec![pair("nodeType", s(tag))])
}

#[test]
fn dispatch_completeness() {
    let expr = vec![
        "Assignment", "BinaryOperation", "Conditional", "ElementaryTypeNameExpression",
        "FunctionCall", "Identifier", "IndexAccess", "Literal", "MemberAccess", "NewExpression",
        "TupleExpression", "UnaryOperation", "VariableDeclarationStatement", "ExpressionStatement",
    ];
    for tag in expr {
        match decode_expression(&bare(tag)) {
            Err(DecodeError::UnknownDiscriminator(t)) => {
                panic!("expression kind {} must be known", t)
            }
            _ => {}
        }
    }
    let stmt = vec![
        "Block", "Break", "Continue", "DoWhileStatement", "EmitStatement", "ExpressionStatement",
        "ForStatement", "IfStatement", "InlineAssembly", "PlaceholderStatement", "Return",
        "RevertStatement", "TryStatement", "UncheckedBlock", "VariableDeclarationStatement",
        "WhileStatement",
    ];
    for tag in stmt {
        match decode_statement(&bare(tag)) {
            Err(DecodeError::UnknownDiscriminator(t)) => {
                panic!("statement kind {} must be known", t)
            }
            _ => {}
        }
    }
    let tn = vec![
        "ArrayTypeName", "ElementaryTypeName", "FunctionTypeName", "Mapping",
        "UserDefinedTypeName",
    ];
    for tag in tn {
        match decode_type_name(&bare(tag)) {
            Err(DecodeError::UnknownDiscriminator(t)) => {
                panic!("type name kind {} must be known", t)
            }
            _ => {}
        }
    }
    let fce = vec![
        "ElementaryTypeNameExpression", "FunctionCall", "FunctionCallOptions", "Identifier",
        "MemberAccess", "NewExpression",
    ];
    for tag in fce {
        match decode_function_call_expression(&bare(tag)) {
            Err(DecodeError::UnknownDiscriminator(t)) => {
                panic!("callee kind {} must be known", t)
            }
            _ => {}
        }
    }
    let sun = vec![
        "ContractDefinition", "EnumDefinition", "ErrorDefinition", "EventDefinition",
        "FunctionDefinition", "ImportDirective", "PragmaDirective", "StructDefinition",
        "UserDefinedValueTypeDefinition", "UsingForDirective", "VariableDeclaration",
    ];
    for tag in sun {
        match decode_source_unit_node(&bare(tag)) {
            Err(DecodeError::UnknownDiscriminator(t)) => {
                panic!("top-level kind {} must be known", t)
            }
            _ => {}
        }
    }
    let cdn = vec![
        "EnumDefinition", "ErrorDefinition", "EventDefinition", "FunctionDefinition",
        "ModifierDefinition", "StructDefinition", "UsingForDirective", "VariableDeclaration",
    ];
    for tag in cdn {
        match decode_contract_node(&bare(tag)) {
            Err(DecodeError::UnknownDiscriminator(t)) => {
                panic!("contract member kind {} must be known", t)
            }
            _ => {}
        }
    }

    assert!(matches!(
        decode_expression(&bare("Sparkle")),
        Err(DecodeError::UnknownDiscriminator(_))
    ));
}

#[test]
fn documentation_tagged_union() {
    let plain = decode_documentation(&s("plain text")).unwrap();
    assert!(matches!(plain, Documentation::String(_)));

    let structured = decode_documentation(&JsonValue::Obj(vec![
        pair("id", JsonValue::Int(9)),
        pair("text", s("notice")),
        pair("src", s("0:4:0")),
    ]))
    .unwrap();
    assert!(matches!(structured, Documentation::Structured(_)));

    fn enum_base() -> Vec<(String, JsonValue)> {
        vec![
            pair("nodeType", s("EnumDefinition")),
            pair("id", JsonValue::Int(5)),
            pair("name", s("E")),
            pair("members", JsonValue::Arr(vec![])),
            pair("src", s("0:9:0")),
        ]
    }
    let mut with_plain = enum_base();
    with_plain.push(pair("documentation", s("plain text")));
    let d1 = decode_enum_definition(&with_plain).unwrap();
    assert!(matches!(d1.documentation, Some(Documentation::String(_))));

    let mut with_structured = enum_base();
    with_structured.push(pair(
        "documentation",
        JsonValue::Obj(vec![
            pair("id", JsonValue::Int(9)),
            pair("text", s("notice")),
            pair("src", s("0:4:0")),
        ]),
    ));
    let d2 = decode_enum_definition(&with_structured).unwrap();
    assert!(matches!(d2.documentation, Some(Documentation::Structured(_))));
}

#[test]
fn localization_precision() {
    let literal_missing_kind = JsonValue::Obj(vec![
        pair("nodeType", s("Literal")),
        pair("id", JsonValue::Int(7)),
        pair("value", s("1")),
        pair("src", s("3:1:0")),
        pair("typeDescriptions", JsonValue::Obj(vec![])),
        pair("isConstant", JsonValue::Bool(false)),
        pair("isLValue", JsonValue::Bool(false)),
        pair("isPure", JsonValue::Bool(true)),
        pair("lValueRequested", JsonValue::Bool(false)),
    ]);
    let unary = JsonValue::Obj(vec![
        pair("nodeType", s("UnaryOperation")),
        pair("id", JsonValue::Int(6)),
        pair("subExpression", literal_missing_kind),
        pair("operator", s("-")),
        pair("isPrefix", JsonValue::Bool(true)),
        pair("src", s("2:2:0")),
        pair("typeDescriptions", JsonValue::Obj(vec![])),
        pair("isConstant", JsonValue::Bool(false)),
        pair("isLValue", JsonValue::Bool(false)),
        pair("isPure", JsonValue::Bool(true)),
        pair("lValueRequested", JsonValue::Bool(false)),
    ]);
    let statement = JsonValue::Obj(vec![
        pair("nodeType", s("ExpressionStatement")),
        pair("id", JsonValue::Int(5)),
        pair("expression", unary),
        pair("src", s("2:3:0")),
    ]);

    let (path, error) = localize_error(&statement).expect("the malformed leaf is found");
    assert_eq!(path, "root.expression.subExpression");
    match error {
        DecodeError::Missing(member) => assert_eq!(member, "kind"),
        other => panic!("expected the missing member, got {:?}", other),
    }

    let well_formed = JsonValue::Obj(vec![
        pair("nodeType", s("Break")),
        pair("id", JsonValue::Int(1)),
        pair("src", s("0:5:0")),
    ]);
    assert!(localize_error(&well_formed).is_none());
}
