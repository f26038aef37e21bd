//! The compiler-input builders, their wire serialization, and the ABI
//! constructors.

use solc::abi::{encode_abi, Abi, AbiItem, Function, Param, StateMutability};
use solc::input::{
    encode_input, Input, Language, ModelCheckerEngine, ModelCheckerSettings, ModelCheckerTarget,
    Solver, SourceContent,
};
use solc::json::JsonValue;
use solc::standard_json_input::{self, StandardJsonInput};

fn member<'a>(v: &'a JsonValue, k: &str) -> Option<&'a JsonValue> {
    match v {
        JsonValue::Obj(members) => members.iter().find(|(mk, _)| mk == k).map(|(_, mv)| mv),
        _ => None,
    }
}

fn member_str(v: &JsonValue, k: &str) -> String {
    match member(v, k) {
        Some(JsonValue::Str(s)) => s.clone(),
        other => panic!("member {} must be a string, got {:?}", k, other),
    }
}

fn checker_settings() -> ModelCheckerSettings {
    ModelCheckerSettings {
        contracts: None,
        div_mod_no_slacks: None,
        engine: Some(ModelCheckerEngine::Chc),
        ext_calls: None,
        invariants: None,
        show_proved_safe: None,
        show_unproved: None,
        show_unsupported: None,
        solvers: Some(vec![Solver::Z3]),
        targets: Some(vec![ModelCheckerTarget::Underflow, ModelCheckerTarget::Overflow]),
        timeout: None,
    }
}

#[test]
fn test_source_content_exclusivity() {
    let input = Input::new().add_source("A.sol".to_string(), "contract A {}".to_string());
    match &input.sources[0].1.content {
        SourceContent::Content { content } => assert_eq!(content, "contract A {}"),
        SourceContent::Urls { .. } => panic!("inline content must not carry URLs"),
    }

    let json = encode_input(&input);
    let sources = member(&json, "sources").expect("the wire form has sources");
    let entry = member(sources, "A.sol").expect("the entry is keyed by its name");
    assert_eq!(member_str(entry, "content"), "contract A {}");
    assert!(member(entry, "urls").is_none());
    assert!(member(entry, "keccak256").is_none());
}

#[test]
fn test_source_url_exclusivity() {
    let input = Input::new().add_source_urls(
        "B.sol".to_string(),
        vec!["ipfs://Qm...".to_string()],
        Some("0x123".to_string()),
    );
    let json = encode_input(&input);
    let sources = member(&json, "sources").expect("the wire form has sources");
    let entry = member(sources, "B.sol").expect("the entry is keyed by its name");
    match member(entry, "urls") {
        Some(JsonValue::Arr(urls)) => {
            assert_eq!(urls.len(), 1);
            assert_eq!(urls[0], JsonValue::Str("ipfs://Qm...".to_string()));
        }
        other => panic!("the urls member must be an array, got {:?}", other),
    }
    assert_eq!(member_str(entry, "keccak256"), "0x123");
    assert!(member(entry, "content").is_none());
}

#[test]
fn test_model_checker_serialization() {
    let input = Input::new().model_checker(checker_settings());
    let json = encode_input(&input);
    let settings = member(&json, "settings").expect("the wire form has settings");
    let mc = member(settings, "modelChecker").expect("the checker settings appear");
    assert_eq!(member_str(mc, "engine"), "chc");
    match member(mc, "targets") {
        Some(JsonValue::Arr(targets)) => {
            assert_eq!(
                targets,
                &vec![
                    JsonValue::Str("underflow".to_string()),
                    JsonValue::Str("overflow".to_string()),
                ]
            );
        }
        other => panic!("the targets member must be an array, got {:?}", other),
    }
    match member(mc, "solvers") {
        Some(JsonValue::Arr(solvers)) => {
            assert_eq!(solvers, &vec![JsonValue::Str("z3".to_string())]);
        }
        other => panic!("the solvers member must be an array, got {:?}", other),
    }
    assert!(member(mc, "timeout").is_none());
    assert!(member(settings, "optimizer").is_none());
}

#[test]
fn source_content_exclusivity() {
    let input =
        StandardJsonInput::new().add_source("A.sol".to_string(), "contract A {}".to_string());
    let json = standard_json_input::encode_input(&input);
    let sources = member(&json, "sources").expect("the wire form has sources");
    let entry = member(sources, "A.sol").expect("the entry is keyed by its name");
    assert_eq!(member_str(entry, "content"), "contract A {}");
    assert!(member(entry, "urls").is_none());
}

#[test]
fn source_url_exclusivity() {
    let input = StandardJsonInput::new().add_source_urls(
        "B.sol".to_string(),
        vec!["ipfs://Qm...".to_string()],
        Some("0x123".to_string()),
    );
    let json = standard_json_input::encode_input(&input);
    let sources = member(&json, "sources").expect("the wire form has sources");
    let entry = member(sources, "B.sol").expect("the entry is keyed by its name");
    assert!(matches!(member(entry, "urls"), Some(JsonValue::Arr(_))));
    assert_eq!(member_str(entry, "keccak256"), "0x123");
    assert!(member(entry, "content").is_none());
}

#[test]
fn model_checker_serialization() {
    let input = StandardJsonInput::new()
        .add_source("A.sol".to_string(), "contract A {}".to_string())
        .model_checker(standard_json_input::ModelCheckerSettings {
            contracts: None,
            div_mod_no_slacks: None,
            engine: Some(standard_json_input::ModelCheckerEngine::Chc),
            ext_calls: None,
            invariants: None,
            show_proved_safe: None,
            show_unproved: None,
            show_unsupported: None,
            solvers: None,
            targets: Some(vec![standard_json_input::ModelCheckerTarget::Underflow]),
            timeout: None,
        });
    let json = standard_json_input::encode_input(&input);
    let settings = member(&json, "settings").expect("the wire form has settings");
    let mc = member(settings, "modelChecker").expect("the checker settings appear");
    assert_eq!(member_str(mc, "engine"), "chc");
    assert!(matches!(member(mc, "targets"), Some(JsonValue::Arr(_))));
}

#[test]
fn abi_constructors() {
    let empty = Abi::new();
    assert!(empty.items.is_empty());

    let item = AbiItem::Function(Function {
        name: "transfer".to_string(),
        inputs: vec![Param {
            name: "to".to_string(),
            canonical_type: "address".to_string(),
            components: None,
            internal_type: None,
        }],
        outputs: vec![],
        state_mutability: StateMutability::Nonpayable,
    });
    let abi = Abi::from_items(vec![item]);
    assert_eq!(abi.items.len(), 1);

    let json = encode_abi(&abi);
    let first = match &json {
        JsonValue::Arr(items) => &items[0],
        other => panic!("the wire form must be a bare array, got {:?}", other),
    };
    assert_eq!(member_str(first, "type"), "function");
    assert_eq!(member_str(first, "name"), "transfer");
    assert_eq!(member_str(first, "stateMutability"), "nonpayable");
    match member(first, "inputs") {
        Some(JsonValue::Arr(inputs)) => {
            assert_eq!(member_str(&inputs[0], "type"), "address");
            assert!(matches!(member(&inputs[0], "components"), Some(JsonValue::Null)));
        }
        other => panic!("the inputs member must be an array, got {:?}", other),
    }
}
