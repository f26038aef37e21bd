//! The contract ABI description: the flat interface records of a compiled
//! contract — functions, events, errors and the special functions.

use vstd::prelude::*;

use crate::ast::fields::{opt_str_of, strs_of};
use crate::json::{jv, jv_pairs, jv_seq, lemma_jv_pairs, lemma_jv_seq, JsonV, JsonValue};

verus! {

/// A complete contract ABI: an ordered list of interface items.
#[derive(Debug, PartialEq, Eq)]
pub struct Abi {
    pub items: Vec<AbiItem>,
}

impl Abi {
    /// An empty ABI.
    pub fn new() -> (r: Abi)
        ensures
            r.items@.len() == 0,
    {
        Abi { items: Vec::new() }
    }

    /// An ABI holding exactly the given items, in order.
    pub fn from_items(items: Vec<AbiItem>) -> (r: Abi)
        ensures
            r.items == items,
    {
        Abi { items }
    }
}

/// One interface item, discriminated on the wire by its `"type"` member.
#[derive(Debug, PartialEq, Eq)]
pub enum AbiItem {
    Function(Function),
    Constructor(Constructor),
    Receive(Receive),
    Fallback(Fallback),
    Event(Event),
    Error(Error),
}

/// A function of the interface.
#[derive(Debug, PartialEq, Eq)]
pub struct Function {
    pub name: String,
    pub inputs: Vec<Param>,
    pub outputs: Vec<Param>,
    pub state_mutability: StateMutability,
}

/// The constructor.
#[derive(Debug, PartialEq, Eq)]
pub struct Constructor {
    pub inputs: Vec<Param>,
    pub state_mutability: StateMutability,
}

/// The receive function, executed on plain transfers.
#[derive(Debug, PartialEq, Eq)]
pub struct Receive {
    pub state_mutability: StateMutability,
}

/// The fallback function, executed on unmatched calls.
#[derive(Debug, PartialEq, Eq)]
pub struct Fallback {
    pub state_mutability: StateMutability,
}

/// An event of the interface.
#[derive(Debug, PartialEq, Eq)]
pub struct Event {
    pub name: String,
    pub inputs: Vec<EventParam>,
    pub anonymous: bool,
}

/// An error of the interface.
#[derive(Debug, PartialEq, Eq)]
pub struct Error {
    pub name: String,
    pub inputs: Vec<Param>,
}

/// A parameter of a function, constructor or error.
#[derive(Debug, PartialEq, Eq)]
pub struct Param {
    pub name: String,
    pub canonical_type: String,
    pub components: Option<Vec<Component>>,
    pub internal_type: Option<String>,
}

/// A parameter of an event, with its indexing flag.
#[derive(Debug, PartialEq, Eq)]
pub struct EventParam {
    pub name: String,
    pub canonical_type: String,
    pub components: Option<Vec<Component>>,
    pub indexed: bool,
    pub internal_type: Option<String>,
}

/// A component of a tuple-typed parameter; components nest.
#[derive(Debug, PartialEq, Eq)]
pub struct Component {
    pub name: String,
    pub canonical_type: String,
    pub components: Option<Vec<Component>>,
    pub internal_type: Option<String>,
}

/// The state mutability of an interface item.
#[derive(Debug, PartialEq, Eq, Structural)]
pub enum StateMutability {
    Pure,
    View,
    Nonpayable,
    Payable,
}

/// The wire spelling of an interface item's state mutability.
pub open spec fn spell_mutability(x: StateMutability) -> Seq<char> {
    match x {
        StateMutability::Pure => "pure"@,
        StateMutability::View => "view"@,
        StateMutability::Nonpayable => "nonpayable"@,
        StateMutability::Payable => "payable"@,
    }
}

/// Renders the wire spelling of an interface item's state mutability.
pub fn encode_mutability(x: &StateMutability) -> (r: String)
    ensures
        r@ == spell_mutability(*x),
{
    match x {
        StateMutability::Pure => String::from_str("pure"),
        StateMutability::View => String::from_str("view"),
        StateMutability::Nonpayable => String::from_str("nonpayable"),
        StateMutability::Payable => String::from_str("payable"),
    }
}

/// The wire value of an optional component list: `null` when unset.
pub open spec fn opt_components_of(x: Option<Vec<Component>>) -> JsonV
    decreases x,
{
    match x {
        Some(v) => JsonV::Arr(seq_component_of(v@)),
        None => JsonV::Null,
    }
}

/// The wire values of a sequence of tuple components.
pub open spec fn seq_component_of(s: Seq<Component>) -> Seq<JsonV>
    decreases s,
{
    if s.len() == 0 {
        Seq::empty()
    } else {
        seq![JsonV::Obj(enc_component(s[0]))] + seq_component_of(s.skip(1))
    }
}

pub proof fn lemma_seq_component_of(s: Seq<Component>)
    ensures
        seq_component_of(s).len() == s.len(),
        forall|i: int| 0 <= i < s.len() ==> seq_component_of(s)[i] == JsonV::Obj(
            enc_component(s[i]),
        ),
    decreases s,
{
    if s.len() > 0 {
        lemma_seq_component_of(s.skip(1));
    }
}

/// The wire members of a tuple component; components nest.
pub open spec fn enc_component(c: Component) -> Seq<(Seq<char>, JsonV)>
    decreases c,
{
    seq![
        ("name"@, JsonV::Str(c.name@)),
        ("type"@, JsonV::Str(c.canonical_type@)),
        ("components"@, opt_components_of(c.components)),
        ("internalType"@, opt_str_of(c.internal_type)),
    ]
}

/// The wire members of a parameter.
pub open spec fn enc_param(p: Param) -> Seq<(Seq<char>, JsonV)> {
    seq![
        ("name"@, JsonV::Str(p.name@)),
        ("type"@, JsonV::Str(p.canonical_type@)),
        ("components"@, opt_components_of(p.components)),
        ("internalType"@, opt_str_of(p.internal_type)),
    ]
}

/// The wire members of an event parameter, with its indexing flag.
pub open spec fn enc_event_param(p: EventParam) -> Seq<(Seq<char>, JsonV)> {
    seq![
        ("name"@, JsonV::Str(p.name@)),
        ("type"@, JsonV::Str(p.canonical_type@)),
        ("components"@, opt_components_of(p.components)),
        ("indexed"@, JsonV::Bool(p.indexed)),
        ("internalType"@, opt_str_of(p.internal_type)),
    ]
}

/// The wire values of a sequence of parameters.
pub open spec fn seq_param_of(s: Seq<Param>) -> Seq<JsonV> {
    s.map_values(|p: Param| JsonV::Obj(enc_param(p)))
}

/// The wire values of a sequence of event parameters.
pub open spec fn seq_event_param_of(s: Seq<EventParam>) -> Seq<JsonV> {
    s.map_values(|p: EventParam| JsonV::Obj(enc_event_param(p)))
}

/// The wire form of one interface item: its discriminator under `"type"`,
/// then the item's members.
pub open spec fn enc_abi_item(i: AbiItem) -> JsonV {
    match i {
        AbiItem::Function(f) => JsonV::Obj(
            seq![
                ("type"@, JsonV::Str("function"@)),
                ("name"@, JsonV::Str(f.name@)),
                ("inputs"@, JsonV::Arr(seq_param_of(f.inputs@))),
                ("outputs"@, JsonV::Arr(seq_param_of(f.outputs@))),
                ("stateMutability"@, JsonV::Str(spell_mutability(f.state_mutability))),
            ],
        ),
        AbiItem::Constructor(c) => JsonV::Obj(
            seq![
                ("type"@, JsonV::Str("constructor"@)),
                ("inputs"@, JsonV::Arr(seq_param_of(c.inputs@))),
                ("stateMutability"@, JsonV::Str(spell_mutability(c.state_mutability))),
            ],
        ),
        AbiItem::Receive(r) => JsonV::Obj(
            seq![
                ("type"@, JsonV::Str("receive"@)),
                ("stateMutability"@, JsonV::Str(spell_mutability(r.state_mutability))),
            ],
        ),
        AbiItem::Fallback(fb) => JsonV::Obj(
            seq![
                ("type"@, JsonV::Str("fallback"@)),
                ("stateMutability"@, JsonV::Str(spell_mutability(fb.state_mutability))),
            ],
        ),
        AbiItem::Event(e) => JsonV::Obj(
            seq![
                ("type"@, JsonV::Str("event"@)),
                ("name"@, JsonV::Str(e.name@)),
                ("inputs"@, JsonV::Arr(seq_event_param_of(e.inputs@))),
                ("anonymous"@, JsonV::Bool(e.anonymous)),
            ],
        ),
        AbiItem::Error(e) => JsonV::Obj(
            seq![
                ("type"@, JsonV::Str("error"@)),
                ("name"@, JsonV::Str(e.name@)),
                ("inputs"@, JsonV::Arr(seq_param_of(e.inputs@))),
            ],
        ),
    }
}

/// The wire form of a whole interface description: a bare array of items.
pub open spec fn enc_abi(a: Abi) -> JsonV {
    JsonV::Arr(a.items@.map_values(|i: AbiItem| enc_abi_item(i)))
}

/// Renders an optional component list.
pub fn encode_opt_components(x: &Option<Vec<Component>>) -> (r: JsonValue)
    ensures
        jv(r) == opt_components_of(*x),
{
    match x {
        None => JsonValue::Null,
        Some(v) => encode_components_list(v),
    }
}

/// Renders a component list.
pub fn encode_components_list(v: &Vec<Component>) -> (r: JsonValue)
    ensures
        jv(r) == JsonV::Arr(seq_component_of(v@)),
    decreases v@, 1int,
{
    let mut out: Vec<JsonValue> = Vec::new();
    let n = v.len();
    let mut i: usize = 0;
    while i < n
        invariant
            i <= n,
            n == v@.len(),
            out@.len() == i,
            forall|j: int| 0 <= j < i ==> jv(#[trigger] out@[j]) == JsonV::Obj(
                enc_component(v@[j]),
            ),
        decreases n - i,
    {
        let c = encode_component(&v[i]);
        out.push(JsonValue::Obj(c));
        i += 1;
    }
    proof {
        lemma_jv_seq(out@);
        lemma_seq_component_of(v@);
        assert(jv_seq(out@) =~= seq_component_of(v@));
    }
    JsonValue::Arr(out)
}

/// Renders a tuple component.
pub fn encode_component(c: &Component) -> (r: Vec<(String, JsonValue)>)
    ensures
        jv_pairs(r@) == enc_component(*c),
    decreases *c, 0int,
{
    let comps = match &c.components {
        Some(v) => encode_components_list(v),
        None => JsonValue::Null,
    };
    let mut out: Vec<(String, JsonValue)> = Vec::new();
    out.push(("name".to_owned(), JsonValue::Str(c.name.clone())));
    out.push(("type".to_owned(), JsonValue::Str(c.canonical_type.clone())));
    out.push(("components".to_owned(), comps));
    out.push((
        "internalType".to_owned(),
        match &c.internal_type {
            Some(s) => JsonValue::Str(s.clone()),
            None => JsonValue::Null,
        },
    ));
    proof {
        lemma_jv_pairs(out@);
        assert(jv_pairs(out@) =~= enc_component(*c));
    }
    out
}

/// Renders a parameter.
pub fn encode_param(p: &Param) -> (r: Vec<(String, JsonValue)>)
    ensures
        jv_pairs(r@) == enc_param(*p),
{
    let mut out: Vec<(String, JsonValue)> = Vec::new();
    out.push(("name".to_owned(), JsonValue::Str(p.name.clone())));
    out.push(("type".to_owned(), JsonValue::Str(p.canonical_type.clone())));
    out.push(("components".to_owned(), encode_opt_components(&p.components)));
    out.push((
        "internalType".to_owned(),
        match &p.internal_type {
            Some(s) => JsonValue::Str(s.clone()),
            None => JsonValue::Null,
        },
    ));
    proof {
        lemma_jv_pairs(out@);
        assert(jv_pairs(out@) =~= enc_param(*p));
    }
    out
}

/// Renders an event parameter.
pub fn encode_event_param(p: &EventParam) -> (r: Vec<(String, JsonValue)>)
    ensures
        jv_pairs(r@) == enc_event_param(*p),
{
    let mut out: Vec<(String, JsonValue)> = Vec::new();
    out.push(("name".to_owned(), JsonValue::Str(p.name.clone())));
    out.push(("type".to_owned(), JsonValue::Str(p.canonical_type.clone())));
    out.push(("components".to_owned(), encode_opt_components(&p.components)));
    out.push(("indexed".to_owned(), JsonValue::Bool(p.indexed)));
    out.push((
        "internalType".to_owned(),
        match &p.internal_type {
            Some(s) => JsonValue::Str(s.clone()),
            None => JsonValue::Null,
        },
    ));
    proof {
        lemma_jv_pairs(out@);
        assert(jv_pairs(out@) =~= enc_event_param(*p));
    }
    out
}

/// Renders an array of parameters.
pub fn encode_params(v: &Vec<Param>) -> (r: JsonValue)
    ensures
        jv(r) == JsonV::Arr(seq_param_of(v@)),
{
    let mut out: Vec<JsonValue> = Vec::new();
    let n = v.len();
    let mut i: usize = 0;
    while i < n
        invariant
            i <= n,
            n == v@.len(),
            out@.len() == i,
            forall|j: int| 0 <= j < i ==> jv(#[trigger] out@[j]) == JsonV::Obj(enc_param(v@[j])),
        decreases n - i,
    {
        let p = encode_param(&v[i]);
        out.push(JsonValue::Obj(p));
        i += 1;
    }
    proof {
        lemma_jv_seq(out@);
        assert(jv_seq(out@) =~= seq_param_of(v@));
    }
    JsonValue::Arr(out)
}

/// Renders an array of event parameters.
pub fn encode_event_params(v: &Vec<EventParam>) -> (r: JsonValue)
    ensures
        jv(r) == JsonV::Arr(seq_event_param_of(v@)),
{
    let mut out: Vec<JsonValue> = Vec::new();
    let n = v.len();
    let mut i: usize = 0;
    while i < n
        invariant
            i <= n,
            n == v@.len(),
            out@.len() == i,
            forall|j: int| 0 <= j < i ==> jv(#[trigger] out@[j]) == JsonV::Obj(
                enc_event_param(v@[j]),
            ),
        decreases n - i,
    {
        let p = encode_event_param(&v[i]);
        out.push(JsonValue::Obj(p));
        i += 1;
    }
    proof {
        lemma_jv_seq(out@);
        assert(jv_seq(out@) =~= seq_event_param_of(v@));
    }
    JsonValue::Arr(out)
}

/// Renders one interface item in its wire form.
pub fn encode_abi_item(item: &AbiItem) -> (r: JsonValue)
    ensures
        jv(r) == enc_abi_item(*item),
{
    let mut out: Vec<(String, JsonValue)> = Vec::new();
    match item {
        AbiItem::Function(f) => {
            out.push(("type".to_owned(), JsonValue::Str("function".to_owned())));
            out.push(("name".to_owned(), JsonValue::Str(f.name.clone())));
            out.push(("inputs".to_owned(), encode_params(&f.inputs)));
            out.push(("outputs".to_owned(), encode_params(&f.outputs)));
            out.push((
                "stateMutability".to_owned(),
                JsonValue::Str(encode_mutability(&f.state_mutability)),
            ));
            proof {
                lemma_jv_pairs(out@);
                assert(jv_pairs(out@) =~~= enc_abi_item(*item)->Obj_0);
            }
        },
        AbiItem::Constructor(c) => {
            out.push(("type".to_owned(), JsonValue::Str("constructor".to_owned())));
            out.push(("inputs".to_owned(), encode_params(&c.inputs)));
            out.push((
                "stateMutability".to_owned(),
                JsonValue::Str(encode_mutability(&c.state_mutability)),
            ));
            proof {
                lemma_jv_pairs(out@);
                assert(jv_pairs(out@) =~~= enc_abi_item(*item)->Obj_0);
            }
        },
        AbiItem::Receive(rc) => {
            out.push(("type".to_owned(), JsonValue::Str("receive".to_owned())));
            out.push((
                "stateMutability".to_owned(),
                JsonValue::Str(encode_mutability(&rc.state_mutability)),
            ));
            proof {
                lemma_jv_pairs(out@);
                assert(jv_pairs(out@) =~~= enc_abi_item(*item)->Obj_0);
            }
        },
        AbiItem::Fallback(fb) => {
            out.push(("type".to_owned(), JsonValue::Str("fallback".to_owned())));
            out.push((
                "stateMutability".to_owned(),
                JsonValue::Str(encode_mutability(&fb.state_mutability)),
            ));
            proof {
                lemma_jv_pairs(out@);
                assert(jv_pairs(out@) =~~= enc_abi_item(*item)->Obj_0);
            }
        },
        AbiItem::Event(e) => {
            out.push(("type".to_owned(), JsonValue::Str("event".to_owned())));
            out.push(("name".to_owned(), JsonValue::Str(e.name.clone())));
            out.push(("inputs".to_owned(), encode_event_params(&e.inputs)));
            out.push(("anonymous".to_owned(), JsonValue::Bool(e.anonymous)));
            proof {
                lemma_jv_pairs(out@);
                assert(jv_pairs(out@) =~~= enc_abi_item(*item)->Obj_0);
            }
        },
        AbiItem::Error(e) => {
            out.push(("type".to_owned(), JsonValue::Str("error".to_owned())));
            out.push(("name".to_owned(), JsonValue::Str(e.name.clone())));
            out.push(("inputs".to_owned(), encode_params(&e.inputs)));
            proof {
                lemma_jv_pairs(out@);
                assert(jv_pairs(out@) =~~= enc_abi_item(*item)->Obj_0);
            }
        },
    }
    proof {
        assert(enc_abi_item(*item) is Obj);
        assert(jv(JsonValue::Obj(out)) == enc_abi_item(*item));
    }
    JsonValue::Obj(out)
}

/// Renders a whole interface description: a bare array of items, in order.
pub fn encode_abi(a: &Abi) -> (r: JsonValue)
    ensures
        jv(r) == enc_abi(*a),
{
    let mut out: Vec<JsonValue> = Vec::new();
    let n = a.items.len();
    let mut i: usize = 0;
    while i < n
        invariant
            i <= n,
            n == a.items@.len(),
            out@.len() == i,
            forall|j: int| 0 <= j < i ==> jv(#[trigger] out@[j]) == enc_abi_item(a.items@[j]),
        decreases n - i,
    {
        let item = encode_abi_item(&a.items[i]);
        out.push(item);
        i += 1;
    }
    proof {
        lemma_jv_seq(out@);
        assert(jv_seq(out@) =~= a.items@.map_values(|i: AbiItem| enc_abi_item(i)));
    }
    JsonValue::Arr(out)
}

} // verus!
