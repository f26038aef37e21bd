//! The error-localization pass: after a whole-document decode has failed,
//! walk the raw JSON tree post-order — every descendant before its node —
//! and report the first node whose recognized discriminator fails an
//! isolated single-record decode, with its dot/bracket path and the failing
//! member.

use vstd::prelude::*;

use crate::ast::canon::{
    canon_fields, idx_path, known_rec, schema, DecodeError, ErrV, RecId,
};
use crate::json::{
    jv, jv_lookup, jv_pairs, jv_seq, lemma_jv_pairs, lemma_jv_seq, obj_get, str_eq, JsonV,
    JsonValue,
};
use crate::text::push_char;

verus! {

/// The first failure a post-order walk from `v` finds, with the dot/bracket
/// path of its node: members and elements are tried in order, each before
/// the node itself; a node with a recognized discriminator that fails its
/// own record's schema is reported; everything else is passed over.
pub open spec fn spec_localize_value(v: JsonV, base: Seq<char>) -> Option<(Seq<char>, ErrV)>
    decreases v, 0int, 0int,
{
    match v {
        JsonV::Obj(ps) => match spec_localize_members(ps, 0, base) {
            Some(r) => Some(r),
            None => match jv_lookup(ps, "nodeType"@) {
                Some(tv) => match tv {
                    JsonV::Str(tag) => match known_rec(tag) {
                        Some(rid) => match canon_fields(ps, schema(rid), 0) {
                            Err(e) => Some((base, e)),
                            Ok(_) => None,
                        },
                        None => None,
                    },
                    _ => None,
                },
                None => None,
            },
        },
        JsonV::Arr(es) => spec_localize_elems(es, 0, base),
        _ => None,
    }
}

/// The walk over an object's members from member `i` on, in order.
pub open spec fn spec_localize_members(
    ps: Seq<(Seq<char>, JsonV)>,
    i: int,
    base: Seq<char>,
) -> Option<(Seq<char>, ErrV)>
    decreases ps, 1int, ps.len() - i,
{
    if i < 0 || i >= ps.len() {
        None
    } else {
        match spec_localize_value(ps[i].1, base + seq!['.'] + ps[i].0) {
            Some(r) => Some(r),
            None => spec_localize_members(ps, i + 1, base),
        }
    }
}

/// The walk over an array's elements from element `i` on, in order.
pub open spec fn spec_localize_elems(es: Seq<JsonV>, i: int, base: Seq<char>) -> Option<
    (Seq<char>, ErrV),
>
    decreases es, 1int, es.len() - i,
{
    if i < 0 || i >= es.len() {
        None
    } else {
        match spec_localize_value(es[i], base + idx_path(i)) {
            Some(r) => Some(r),
            None => spec_localize_elems(es, i + 1, base),
        }
    }
}

/// What [`localize_error`] reports: the post-order walk from the root.
pub open spec fn spec_localize(v: JsonV) -> Option<(Seq<char>, ErrV)> {
    spec_localize_value(v, "root"@)
}

/// Attempts the isolated single-record decode a recognized discriminator
/// selects, reporting only the failure.
fn try_known_tag(tag: &String, ps: &Vec<(String, JsonValue)>) -> (r: Option<DecodeError>)
    ensures
        match known_rec(tag@) {
            Some(rid) => match r {
                Some(e) => canon_fields(jv_pairs(ps@), schema(rid), 0) == Err::<
                    Seq<(Seq<char>, JsonV)>,
                    ErrV,
                >(e.model()),
                None => canon_fields(jv_pairs(ps@), schema(rid), 0) is Ok,
            },
            None => r is None,
        },
    decreases jv_pairs(ps@), 9int, 0int,
{
    if str_eq(tag.as_str(), "ArrayTypeName") {
        match crate::ast::dec_type::decode_array_type_name(ps) {
            Ok(_) => None,
            Err(e) => Some(e),
        }
    } else if str_eq(tag.as_str(), "Assignment") {
        match crate::ast::dec_expr::decode_assignment(ps) {
            Ok(_) => None,
            Err(e) => Some(e),
        }
    } else if str_eq(tag.as_str(), "BinaryOperation") {
        match crate::ast::dec_expr::decode_binary_operation(ps) {
            Ok(_) => None,
            Err(e) => Some(e),
        }
    } else if str_eq(tag.as_str(), "Block") {
        match crate::ast::dec_stmt::decode_block(ps) {
            Ok(_) => None,
            Err(e) => Some(e),
        }
    } else if str_eq(tag.as_str(), "Break") {
        match crate::ast::dec_stmt::decode_break_statement(ps) {
            Ok(_) => None,
            Err(e) => Some(e),
        }
    } else if str_eq(tag.as_str(), "Conditional") {
        match crate::ast::dec_expr::decode_conditional(ps) {
            Ok(_) => None,
            Err(e) => Some(e),
        }
    } else if str_eq(tag.as_str(), "Continue") {
        match crate::ast::dec_stmt::decode_continue_statement(ps) {
            Ok(_) => None,
            Err(e) => Some(e),
        }
    } else if str_eq(tag.as_str(), "ContractDefinition") {
        match crate::ast::dec_decl::decode_contract_definition(ps) {
            Ok(_) => None,
            Err(e) => Some(e),
        }
    } else if str_eq(tag.as_str(), "DoWhileStatement") {
        match crate::ast::dec_stmt::decode_do_while_statement(ps) {
            Ok(_) => None,
            Err(e) => Some(e),
        }
    } else if str_eq(tag.as_str(), "ElementaryTypeName") {
        match crate::ast::dec_leaf::decode_elementary_type_name(ps) {
            Ok(_) => None,
            Err(e) => Some(e),
        }
    } else if str_eq(tag.as_str(), "ElementaryTypeNameExpression") {
        match crate::ast::dec_expr::decode_elementary_type_name_expression(ps) {
            Ok(_) => None,
            Err(e) => Some(e),
        }
    } else if str_eq(tag.as_str(), "EmitStatement") {
        match crate::ast::dec_stmt::decode_emit_statement(ps) {
            Ok(_) => None,
            Err(e) => Some(e),
        }
    } else if str_eq(tag.as_str(), "EnumDefinition") {
        match crate::ast::dec_decl::decode_enum_definition(ps) {
            Ok(_) => None,
            Err(e) => Some(e),
        }
    } else if str_eq(tag.as_str(), "ErrorDefinition") {
        match crate::ast::dec_decl::decode_error_definition(ps) {
            Ok(_) => None,
            Err(e) => Some(e),
        }
    } else if str_eq(tag.as_str(), "EventDefinition") {
        match crate::ast::dec_decl::decode_event_definition(ps) {
            Ok(_) => None,
            Err(e) => Some(e),
        }
    } else if str_eq(tag.as_str(), "ExpressionStatement") {
        match crate::ast::dec_stmt::decode_expression_statement(ps) {
            Ok(_) => None,
            Err(e) => Some(e),
        }
    } else if str_eq(tag.as_str(), "ForStatement") {
        match crate::ast::dec_stmt::decode_for_statement(ps) {
            Ok(_) => None,
            Err(e) => Some(e),
        }
    } else if str_eq(tag.as_str(), "FunctionCall") {
        match crate::ast::dec_expr::decode_function_call(ps) {
            Ok(_) => None,
            Err(e) => Some(e),
        }
    } else if str_eq(tag.as_str(), "FunctionCallOptions") {
        match crate::ast::dec_expr::decode_function_call_options(ps) {
            Ok(_) => None,
            Err(e) => Some(e),
        }
    } else if str_eq(tag.as_str(), "FunctionDefinition") {
        match crate::ast::dec_decl::decode_function_definition(ps) {
            Ok(_) => None,
            Err(e) => Some(e),
        }
    } else if str_eq(tag.as_str(), "FunctionTypeName") {
        match crate::ast::dec_type::decode_function_type_name(ps) {
            Ok(_) => None,
            Err(e) => Some(e),
        }
    } else if str_eq(tag.as_str(), "Identifier") {
        match crate::ast::dec_leaf::decode_identifier(ps) {
            Ok(_) => None,
            Err(e) => Some(e),
        }
    } else if str_eq(tag.as_str(), "IfStatement") {
        match crate::ast::dec_stmt::decode_if_statement(ps) {
            Ok(_) => None,
            Err(e) => Some(e),
        }
    } else if str_eq(tag.as_str(), "ImportDirective") {
        match crate::ast::dec_decl::decode_import_directive(ps) {
            Ok(_) => None,
            Err(e) => Some(e),
        }
    } else if str_eq(tag.as_str(), "IndexAccess") {
        match crate::ast::dec_expr::decode_index_access(ps) {
            Ok(_) => None,
            Err(e) => Some(e),
        }
    } else if str_eq(tag.as_str(), "InlineAssembly") {
        match crate::ast::dec_stmt::decode_inline_assembly(ps) {
            Ok(_) => None,
            Err(e) => Some(e),
        }
    } else if str_eq(tag.as_str(), "Literal") {
        match crate::ast::dec_expr::decode_literal(ps) {
            Ok(_) => None,
            Err(e) => Some(e),
        }
    } else if str_eq(tag.as_str(), "Mapping") {
        match crate::ast::dec_type::decode_mapping(ps) {
            Ok(_) => None,
            Err(e) => Some(e),
        }
    } else if str_eq(tag.as_str(), "MemberAccess") {
        match crate::ast::dec_expr::decode_member_access(ps) {
            Ok(_) => None,
            Err(e) => Some(e),
        }
    } else if str_eq(tag.as_str(), "ModifierDefinition") {
        match crate::ast::dec_decl::decode_modifier_definition(ps) {
            Ok(_) => None,
            Err(e) => Some(e),
        }
    } else if str_eq(tag.as_str(), "NewExpression") {
        match crate::ast::dec_expr::decode_new_expression(ps) {
            Ok(_) => None,
            Err(e) => Some(e),
        }
    } else if str_eq(tag.as_str(), "PlaceholderStatement") {
        match crate::ast::dec_stmt::decode_placeholder_statement(ps) {
            Ok(_) => None,
            Err(e) => Some(e),
        }
    } else if str_eq(tag.as_str(), "PragmaDirective") {
        match crate::ast::dec_decl::decode_pragma_directive(ps) {
            Ok(_) => None,
            Err(e) => Some(e),
        }
    } else if str_eq(tag.as_str(), "Return") {
        match crate::ast::dec_stmt::decode_return_statement(ps) {
            Ok(_) => None,
            Err(e) => Some(e),
        }
    } else if str_eq(tag.as_str(), "RevertStatement") {
        match crate::ast::dec_stmt::decode_revert_statement(ps) {
            Ok(_) => None,
            Err(e) => Some(e),
        }
    } else if str_eq(tag.as_str(), "SourceUnit") {
        match crate::ast::dec_decl::decode_source_unit(ps) {
            Ok(_) => None,
            Err(e) => Some(e),
        }
    } else if str_eq(tag.as_str(), "StructDefinition") {
        match crate::ast::dec_decl::decode_struct_definition(ps) {
            Ok(_) => None,
            Err(e) => Some(e),
        }
    } else if str_eq(tag.as_str(), "StructuredDocumentation") {
        match crate::ast::dec_leaf::decode_structured_documentation(ps) {
            Ok(_) => None,
            Err(e) => Some(e),
        }
    } else if str_eq(tag.as_str(), "TryStatement") {
        match crate::ast::dec_stmt::decode_try_statement(ps) {
            Ok(_) => None,
            Err(e) => Some(e),
        }
    } else if str_eq(tag.as_str(), "TupleExpression") {
        match crate::ast::dec_expr::decode_tuple_expression(ps) {
            Ok(_) => None,
            Err(e) => Some(e),
        }
    } else if str_eq(tag.as_str(), "UnaryOperation") {
        match crate::ast::dec_expr::decode_unary_operation(ps) {
            Ok(_) => None,
            Err(e) => Some(e),
        }
    } else if str_eq(tag.as_str(), "UncheckedBlock") {
        match crate::ast::dec_stmt::decode_unchecked_block(ps) {
            Ok(_) => None,
            Err(e) => Some(e),
        }
    } else if str_eq(tag.as_str(), "UserDefinedTypeName") {
        match crate::ast::dec_type::decode_user_defined_type_name(ps) {
            Ok(_) => None,
            Err(e) => Some(e),
        }
    } else if str_eq(tag.as_str(), "UserDefinedValueTypeDefinition") {
        match crate::ast::dec_decl::decode_user_defined_value_type_definition(ps) {
            Ok(_) => None,
            Err(e) => Some(e),
        }
    } else if str_eq(tag.as_str(), "UsingForDirective") {
        match crate::ast::dec_decl::decode_using_for_directive(ps) {
            Ok(_) => None,
            Err(e) => Some(e),
        }
    } else if str_eq(tag.as_str(), "VariableDeclaration") {
        match crate::ast::dec_decl::decode_variable_declaration(ps) {
            Ok(_) => None,
            Err(e) => Some(e),
        }
    } else if str_eq(tag.as_str(), "VariableDeclarationStatement") {
        match crate::ast::dec_stmt::decode_variable_declaration_statement(ps) {
            Ok(_) => None,
            Err(e) => Some(e),
        }
    } else if str_eq(tag.as_str(), "WhileStatement") {
        match crate::ast::dec_stmt::decode_while_statement(ps) {
            Ok(_) => None,
            Err(e) => Some(e),
        }
    } else {
        None
    }
}

/// One step of the walk: the members of an object (or the elements of an
/// array) first, in order, then the node itself by its discriminator.
pub fn localize_value(v: &JsonValue, base: &String) -> (r: Option<(String, DecodeError)>)
    ensures
        match r {
            Some((p, e)) => spec_localize_value(jv(*v), base@) == Some((p@, e.model())),
            None => spec_localize_value(jv(*v), base@) is None,
        },
    decreases jv(*v), 2int, 0int,
{
    match v {
        JsonValue::Obj(ps) => {
            let ghost m = jv_pairs(ps@);
            proof {
                lemma_jv_pairs(ps@);
                assert(jv(*v) == JsonV::Obj(m));
            }
            let n = ps.len();
            let mut i: usize = 0;
            while i < n
                invariant
                    i <= n,
                    n == ps@.len(),
                    m == jv_pairs(ps@),
                    m.len() == n,
                    jv(*v) == JsonV::Obj(m),
                    forall|j: int| 0 <= j < n ==> m[j] == (ps@[j].0@, jv(ps@[j].1)),
                    spec_localize_members(m, 0, base@) == spec_localize_members(
                        m,
                        i as int,
                        base@,
                    ),
                decreases n - i,
            {
                let mut cb = base.clone();
                push_char(&mut cb, '.');
                cb.append(ps[i].0.as_str());
                proof {
                    assert(cb@ =~= base@ + seq!['.'] + m[i as int].0);
                    assert(m[i as int] == (ps@[i as int].0@, jv(ps@[i as int].1)));
                    assert(decreases_to!(m => m[i as int]));
                    assert(decreases_to!(m[i as int] => m[i as int].1));
                    assert(jv(*v)->Obj_0 == m);
                    assert(decreases_to!(jv(*v) => jv(*v)->Obj_0));
                    assert(decreases_to!(jv(*v) => jv(ps@[i as int].1)));
                }
                match localize_value(&ps[i].1, &cb) {
                    Some(res) => {
                        return Some(res);
                    },
                    None => {},
                }
                i += 1;
            }
            let tag_opt = obj_get(ps, "nodeType");
            match tag_opt {
                Some(tv) => match tv {
                    JsonValue::Str(tag) => {
                        match try_known_tag(tag, ps) {
                            Some(e) => Some((base.clone(), e)),
                            None => None,
                        }
                    },
                    _ => None,
                },
                None => None,
            }
        },
        JsonValue::Arr(elems) => {
            let ghost s = jv_seq(elems@);
            proof {
                lemma_jv_seq(elems@);
                assert(jv(*v) == JsonV::Arr(s));
            }
            let n = elems.len();
            let mut i: usize = 0;
            while i < n
                invariant
                    i <= n,
                    n == elems@.len(),
                    s == jv_seq(elems@),
                    s.len() == n,
                    jv(*v) == JsonV::Arr(s),
                    forall|j: int| 0 <= j < n ==> s[j] == jv(elems@[j]),
                    spec_localize_elems(s, 0, base@) == spec_localize_elems(s, i as int, base@),
                decreases n - i,
            {
                let mut cb = base.clone();
                push_char(&mut cb, '[');
                let d = crate::text::fmt_u64(i as u64);
                cb.append(d.as_str());
                push_char(&mut cb, ']');
                proof {
                    assert(cb@ =~= base@ + idx_path(i as int));
                    assert(s[i as int] == jv(elems@[i as int]));
                    assert(decreases_to!(s => s[i as int]));
                    assert(jv(*v)->Arr_0 == s);
                    assert(decreases_to!(jv(*v) => jv(*v)->Arr_0));
                    assert(decreases_to!(jv(*v) => jv(elems@[i as int])));
                }
                match localize_value(&elems[i], &cb) {
                    Some(res) => {
                        return Some(res);
                    },
                    None => {},
                }
                i += 1;
            }
            None
        },
        _ => None,
    }
}

/// Walks a failed document post-order and reports the first node whose
/// recognized discriminator fails its own record's schema in isolation: its
/// dot/bracket path from `root`, and the failing member. A document that is
/// well-formed node by node yields nothing.
pub fn localize_error(v: &JsonValue) -> (r: Option<(String, DecodeError)>)
    ensures
        match r {
            Some((p, e)) => spec_localize(jv(*v)) == Some((p@, e.model())),
            None => spec_localize(jv(*v)) is None,
        },
{
    let base = String::from_str("root");
    localize_value(v, &base)
}

} // verus!
