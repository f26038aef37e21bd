//! Decoders for the expression records, the expression family, and the
//! callee-position family.

use vstd::prelude::*;

use crate::ast::canon::{
    Child, DecodeError, EnumId, ErrV, Fam, FieldKind, RecId, canon_doc, canon_elems,
    canon_field, canon_fields, canon_members, canon_node, canon_rec, canon_value, cat_opts,
    enum_ok, fam_rec, idx_path, lemma_canon_fields_err_shape, lemma_canon_fields_first_err,
    lemma_canon_fields_ok, lemma_canon_value_arr_unfold, lemma_canon_value_child_unfold,
    lemma_canon_value_map_unfold, lemma_canon_value_opt_arr_unfold,
    lemma_canon_value_opt_child_unfold, prefix_err, prefix_field, prefix_index, rec_tag,
    schema,
};
use crate::ast::fields::{
    field_matches, g_arr_i64, g_bool, g_bool_or_int, g_bool_prefix_alias, g_def_arr_i64,
    g_elem, g_i64, g_opt_arr_i64, g_opt_bool, g_opt_i64, g_opt_str, g_opt_str_omit, g_src,
    g_str, ints_of, lemma_canon_elems_err, lemma_canon_elems_ok, map_ints_of, omit_str_of,
    opt_arr_ints_of, opt_bool_of, opt_int_of, opt_ints_of, opt_str_of, opt_strs_of, strs_of,
};
use crate::ast::shape::{
    enc_array_type_name, enc_assignment, enc_binary_operation, enc_block, enc_break_statement,
    enc_common_type, enc_conditional, enc_continue_statement, enc_contract_definition,
    enc_contract_node, enc_do_while_statement, enc_doc, enc_documentation_custom,
    enc_documentation_parameter, enc_documentation_return, enc_elementary_type_name,
    enc_elementary_type_name_expression, enc_emit_statement, enc_enum_definition,
    enc_enum_value, enc_error_definition, enc_event_definition, enc_expr,
    enc_expression_statement, enc_external_reference, enc_for_statement, enc_function_call,
    enc_function_call_expression, enc_function_call_options, enc_function_definition,
    enc_function_type_name, enc_identifier, enc_identifier_path, enc_if_statement,
    enc_import_directive, enc_index_access, enc_inheritance_specifier, enc_inline_assembly,
    enc_literal, enc_mapping, enc_member_access, enc_modifier_definition,
    enc_modifier_invocation, enc_new_expression, enc_override_specifier, enc_parameter_list,
    enc_placeholder_statement, enc_pragma_directive, enc_return_statement,
    enc_revert_statement, enc_source_unit, enc_source_unit_node, enc_stmt,
    enc_struct_definition, enc_structured_documentation, enc_symbol_alias,
    enc_try_catch_clause, enc_try_statement, enc_tuple_expression, enc_type_descriptions,
    enc_type_name, enc_unary_operation, enc_unchecked_block, enc_user_defined_type_name,
    enc_user_defined_value_type_definition, enc_using_for_directive, enc_variable_declaration,
    enc_variable_declaration_statement, enc_while_statement, lemma_seq_contract_node_of,
    lemma_seq_expr_of, lemma_seq_inheritance_specifier_of, lemma_seq_modifier_invocation_of,
    lemma_seq_opt_expr_of, lemma_seq_opt_variable_declaration_of,
    lemma_seq_source_unit_node_of, lemma_seq_stmt_of, lemma_seq_try_catch_clause_of,
    lemma_seq_type_name_of, lemma_seq_variable_declaration_of, opt_arr_expr_of,
    opt_arr_external_reference_of, opt_arr_inheritance_specifier_of,
    opt_arr_type_descriptions_of, opt_block_of, opt_doc_of, opt_expr_of, opt_free_of,
    opt_identifier_path_of, opt_override_specifier_of, opt_parameter_list_of, opt_spell_mik_of,
    opt_spell_mut_of, opt_spell_sl_of, opt_spell_sm_of, opt_stmt_of, opt_type_name_of,
    opt_user_defined_type_name_of, opt_variable_declaration_of, seq_contract_node_of,
    seq_documentation_custom_of, seq_documentation_parameter_of, seq_documentation_return_of,
    seq_enum_value_of, seq_expr_of, seq_external_reference_of, seq_identifier_path_of,
    seq_inheritance_specifier_of, seq_modifier_invocation_of, seq_opt_expr_of,
    seq_opt_variable_declaration_of, seq_source_unit_node_of, seq_stmt_of, seq_symbol_alias_of,
    seq_try_catch_clause_of, seq_type_descriptions_of, seq_type_name_of,
    seq_variable_declaration_of, spell_ck, spell_fk, spell_lit, spell_mik, spell_mut, spell_sl,
    spell_sm, spell_vis,
};
use crate::ast::common::spec_encode_location;
use crate::ast::types::spec_encode_elementary;
use crate::ast::{
    ArrayTypeName, Assignment, BinaryOperation, Block, Break, CommonType, Conditional,
    Continue, ContractDefinition, ContractDefinitionNode, ContractKind, DoWhileStatement,
    Documentation, ElementaryType, ElementaryTypeName, ElementaryTypeNameExpression,
    EmitStatement, EnumDefinition, EnumValue, ErrorDefinition, EventDefinition, Expression,
    ExpressionStatement, ExternalReference, ForStatement, FunctionCall, FunctionCallExpression,
    FunctionCallOptions, FunctionDefinition, FunctionKind, FunctionTypeName, Identifier,
    IdentifierPath, IfStatement, ImportDirective, IndexAccess, InheritanceSpecifier,
    InlineAssembly, Literal, LiteralKind, Mapping, MemberAccess, ModifierDefinition,
    ModifierInvocation, ModifierInvocationKind, Mutability, NewExpression, OverrideSpecifier,
    ParameterList, PlaceholderStatement, PragmaDirective, Return, RevertStatement,
    SourceLocation, SourceUnit, SourceUnitNode, StateMutability, Statement, StorageLocation,
    StructDefinition, StructuredDocumentation, StructuredDocumentationCustom,
    StructuredDocumentationParameter, StructuredDocumentationReturn, SymbolAlias,
    TryCatchClause, TryStatement, TupleExpression, TypeDescriptions, TypeName, UnaryOperation,
    UncheckedBlock, UserDefinedTypeName, UserDefinedValueTypeDefinition, UsingForDirective,
    VariableDeclaration, VariableDeclarationStatement, Visibility, WhileStatement,
};
use crate::json::{
    clone_json, jv, jv_lookup, jv_pairs, jv_seq, lemma_jv_pairs, lemma_jv_seq, obj_get, str_eq,
    JsonV, JsonValue,
};

verus! {

/// Decodes the elements of an array of expr members.
pub(crate) fn core_arr_expr(elems: &Vec<JsonValue>) -> (r: Result<Vec<Expression>, DecodeError>)
    ensures
        match r {
            Ok(xs) => canon_elems(jv_seq(elems@), 0, FieldKind::KChild(Child::CFam(Fam::Expr))) == Ok::<Seq<JsonV>, ErrV>(seq_expr_of(xs@)),
            Err(e) => canon_elems(jv_seq(elems@), 0, FieldKind::KChild(Child::CFam(Fam::Expr))) == Err::<Seq<JsonV>, ErrV>(e.model()),
        },
    decreases jv_seq(elems@), 6int, 0int,
{
    proof {
        reveal(crate::ast::canon::canon_value);
        reveal(crate::ast::canon::canon_field);
    }
    let ghost s = jv_seq(elems@);
    let ghost ek = FieldKind::KChild(Child::CFam(Fam::Expr));
    proof {
        lemma_jv_seq(elems@);
    }
    let n = elems.len();
    let mut out: Vec<Expression> = Vec::new();
    let mut i: usize = 0;
    while i < n
        invariant
            i <= n,
            n == elems@.len(),
            s == jv_seq(elems@),
            s.len() == n,
            forall|j: int| 0 <= j < n ==> s[j] == jv(elems@[j]),
            out@.len() == i,
            forall|j: int| 0 <= j < i ==> canon_value(#[trigger] s[j], ek) == Ok::<JsonV, ErrV>(
                enc_expr(out@[j]),
            ),
            ek == FieldKind::KChild(Child::CFam(Fam::Expr)),
        decreases n - i,
    {
        let child = &elems[i];
        proof {
            assert(s[i as int] == jv(*child));
            assert(decreases_to!(s => s[i as int]));
        }
        match decode_expression(child) {
            Ok(x) => {
                out.push(x);
                proof {
                    lemma_canon_value_child_unfold(s[i as int], Child::CFam(Fam::Expr));
                    
                    assert(canon_value(s[i as int], ek) == Ok::<JsonV, ErrV>(enc_expr(x)));
                }
            },
            Err(e) => {
                proof {
                    lemma_canon_value_child_unfold(s[i as int], Child::CFam(Fam::Expr));
                    
                    crate::ast::dec_leaf::lemma_canon_node_err_shape(jv(*child), Fam::Expr);
                    lemma_canon_elems_err(s, i as int, ek);
                    assert(prefix_err(idx_path(i as int), canon_value(s[i as int], ek)->Err_0)
                        == prefix_err(idx_path(i as int), e.model()));
                }
                return Err(prefix_index(i, e));
            },
        }
        i += 1;
    }
    proof {
        lemma_canon_elems_ok(s, ek);
        let cs = canon_elems(s, 0, ek)->Ok_0;
        crate::ast::shape::lemma_seq_expr_of(out@);
        assert forall|j: int| 0 <= j < n implies cs[j] == seq_expr_of(out@)[j] by {
            assert(canon_value(s[j], ek) == Ok::<JsonV, ErrV>(enc_expr(out@[j])));
        }
        assert(cs =~= seq_expr_of(out@));
    }
    Ok(out)
}

/// Decodes the elements of an array of optional expr members.
pub(crate) fn core_arr_opt_expr(elems: &Vec<JsonValue>) -> (r: Result<Vec<Option<Expression>>, DecodeError>)
    ensures
        match r {
            Ok(xs) => canon_elems(jv_seq(elems@), 0, FieldKind::KOptChild(Child::CFam(Fam::Expr))) == Ok::<Seq<JsonV>, ErrV>(seq_opt_expr_of(xs@)),
            Err(e) => canon_elems(jv_seq(elems@), 0, FieldKind::KOptChild(Child::CFam(Fam::Expr))) == Err::<Seq<JsonV>, ErrV>(e.model()),
        },
    decreases jv_seq(elems@), 6int, 0int,
{
    proof {
        reveal(crate::ast::canon::canon_value);
        reveal(crate::ast::canon::canon_field);
    }
    let ghost s = jv_seq(elems@);
    let ghost ek = FieldKind::KOptChild(Child::CFam(Fam::Expr));
    proof {
        lemma_jv_seq(elems@);
    }
    let n = elems.len();
    let mut out: Vec<Option<Expression>> = Vec::new();
    let mut i: usize = 0;
    while i < n
        invariant
            i <= n,
            n == elems@.len(),
            s == jv_seq(elems@),
            s.len() == n,
            forall|j: int| 0 <= j < n ==> s[j] == jv(elems@[j]),
            out@.len() == i,
            forall|j: int| 0 <= j < i ==> canon_value(#[trigger] s[j], ek) == Ok::<JsonV, ErrV>(
                opt_expr_of(out@[j]),
            ),
            ek == FieldKind::KOptChild(Child::CFam(Fam::Expr)),
        decreases n - i,
    {
        let child = &elems[i];
        proof {
            assert(s[i as int] == jv(*child));
            assert(decreases_to!(s => s[i as int]));
        }
        if matches!(child, JsonValue::Null) {
            out.push(None);
            proof {
                lemma_canon_value_opt_child_unfold(s[i as int], Child::CFam(Fam::Expr));
                assert(canon_value(s[i as int], ek) == Ok::<JsonV, ErrV>(JsonV::Null));
            }
            i += 1;
            continue;
        }
        match decode_expression(child) {
            Ok(x) => {
                out.push(Some(x));
                proof {
                    lemma_canon_value_child_unfold(s[i as int], Child::CFam(Fam::Expr));
                    lemma_canon_value_opt_child_unfold(s[i as int], Child::CFam(Fam::Expr));
                    assert(canon_value(s[i as int], ek) == Ok::<JsonV, ErrV>(opt_expr_of(Some(x))));
                }
            },
            Err(e) => {
                proof {
                    lemma_canon_value_child_unfold(s[i as int], Child::CFam(Fam::Expr));
                    lemma_canon_value_opt_child_unfold(s[i as int], Child::CFam(Fam::Expr));
                    crate::ast::dec_leaf::lemma_canon_node_err_shape(jv(*child), Fam::Expr);
                    lemma_canon_elems_err(s, i as int, ek);
                    assert(prefix_err(idx_path(i as int), canon_value(s[i as int], ek)->Err_0)
                        == prefix_err(idx_path(i as int), e.model()));
                }
                return Err(prefix_index(i, e));
            },
        }
        i += 1;
    }
    proof {
        lemma_canon_elems_ok(s, ek);
        let cs = canon_elems(s, 0, ek)->Ok_0;
        crate::ast::shape::lemma_seq_opt_expr_of(out@);
        assert forall|j: int| 0 <= j < n implies cs[j] == seq_opt_expr_of(out@)[j] by {
            assert(canon_value(s[j], ek) == Ok::<JsonV, ErrV>(opt_expr_of(out@[j])));
        }
        assert(cs =~= seq_opt_expr_of(out@));
    }
    Ok(out)
}

/// Reads a required array-of-expr member.
pub(crate) fn g_ac_expr(ps: &Vec<(String, JsonValue)>, k: &str) -> (r: Result<Vec<Expression>, DecodeError>)
    ensures
        field_matches(r, ps@, k@, FieldKind::KArrChild(Child::CFam(Fam::Expr)), |x: Vec<Expression>| Some(JsonV::Arr(seq_expr_of(x@)))),
    decreases jv_pairs(ps@), 4int, 0int,
{
    proof {
        reveal(crate::ast::canon::canon_field);
        reveal(crate::ast::canon::canon_value);
    }
    match obj_get(ps, k) {
        None => Err(DecodeError::Missing(k.to_owned())),
        Some(v) => match v {
            JsonValue::Arr(elems) => {
                proof {
                    lemma_canon_value_arr_unfold(jv(*v), FieldKind::KArrChild(Child::CFam(Fam::Expr)), FieldKind::KChild(Child::CFam(Fam::Expr)));
                    assert(jv(*v) == JsonV::Arr(jv_seq(elems@)));
                    lemma_jv_pairs(ps@);
                    let i = choose|i: int| 0 <= i < ps@.len() && ps@[i].1 == *v;
                    assert(jv_pairs(ps@)[i] == (ps@[i].0@, jv(*v)));
                    assert(decreases_to!(jv_pairs(ps@) => jv_pairs(ps@)[i].1));
                    assert(jv(*v)->Arr_0 == jv_seq(elems@));
                    assert(decreases_to!(jv(*v) => jv(*v)->Arr_0));
                }
                match core_arr_expr(elems) {
                    Ok(xs) => Ok(xs),
                    Err(e) => Err(prefix_field(k, e)),
                }
            },
            _ => {
                proof {
                    lemma_canon_value_arr_unfold(jv(*v), FieldKind::KArrChild(Child::CFam(Fam::Expr)), FieldKind::KChild(Child::CFam(Fam::Expr)));
                }
                Err(DecodeError::Invalid(k.to_owned()))
            },
        },
    }
}

/// Reads a required array member whose elements are expr members or nulls.
pub(crate) fn g_aoc_expr(ps: &Vec<(String, JsonValue)>, k: &str) -> (r: Result<
    Vec<Option<Expression>>,
    DecodeError,
>)
    ensures
        field_matches(
            r,
            ps@,
            k@,
            FieldKind::KArrOptChild(Child::CFam(Fam::Expr)),
            |x: Vec<Option<Expression>>| Some(JsonV::Arr(seq_opt_expr_of(x@))),
        ),
    decreases jv_pairs(ps@), 4int, 0int,
{
    proof {
        reveal(crate::ast::canon::canon_field);
        reveal(crate::ast::canon::canon_value);
    }
    match obj_get(ps, k) {
        None => Err(DecodeError::Missing(k.to_owned())),
        Some(v) => match v {
            JsonValue::Arr(elems) => {
                proof {
                    lemma_canon_value_arr_unfold(jv(*v), FieldKind::KArrOptChild(Child::CFam(Fam::Expr)), FieldKind::KOptChild(Child::CFam(Fam::Expr)));
                    assert(jv(*v) == JsonV::Arr(jv_seq(elems@)));
                    lemma_jv_pairs(ps@);
                    let i = choose|i: int| 0 <= i < ps@.len() && ps@[i].1 == *v;
                    assert(jv_pairs(ps@)[i] == (ps@[i].0@, jv(*v)));
                    assert(decreases_to!(jv_pairs(ps@) => jv_pairs(ps@)[i].1));
                    assert(jv(*v)->Arr_0 == jv_seq(elems@));
                    assert(decreases_to!(jv(*v) => jv(*v)->Arr_0));
                }
                match core_arr_opt_expr(elems) {
                    Ok(xs) => Ok(xs),
                    Err(e) => Err(prefix_field(k, e)),
                }
            },
            _ => {
                proof {
                    lemma_canon_value_arr_unfold(jv(*v), FieldKind::KArrOptChild(Child::CFam(Fam::Expr)), FieldKind::KOptChild(Child::CFam(Fam::Expr)));
                }
                Err(DecodeError::Invalid(k.to_owned()))
            },
        },
    }
}

/// Reads a required expr member.
pub(crate) fn g_c_expr(ps: &Vec<(String, JsonValue)>, k: &str) -> (r: Result<Expression, DecodeError>)
    ensures
        field_matches(
            r,
            ps@,
            k@,
            FieldKind::KChild(Child::CFam(Fam::Expr)),
            |x: Expression| Some(enc_expr(x)),
        ),
    decreases jv_pairs(ps@), 4int, 0int,
{
    proof {
        reveal(crate::ast::canon::canon_field);
        reveal(crate::ast::canon::canon_value);
    }
    match obj_get(ps, k) {
        None => Err(DecodeError::Missing(k.to_owned())),
        Some(v) => {
            proof {
                lemma_jv_pairs(ps@);
                let i = choose|i: int| 0 <= i < ps@.len() && ps@[i].1 == *v;
                assert(jv_pairs(ps@)[i] == (ps@[i].0@, jv(*v)));
                assert(decreases_to!(jv_pairs(ps@) => jv_pairs(ps@)[i].1));
            }
            match decode_expression(v) {
                Ok(x) => Ok(x),
                Err(e) => {
                    proof {
                        crate::ast::dec_leaf::lemma_canon_node_err_shape(jv(*v), Fam::Expr);
                    }
                    Err(prefix_field(k, e))
                },
            }
        },
    }
}

/// Reads an optional array-of-expr member.
pub(crate) fn g_oac_expr(ps: &Vec<(String, JsonValue)>, k: &str) -> (r: Result<Option<Vec<Expression>>, DecodeError>)
    ensures
        field_matches(r, ps@, k@, FieldKind::KOptArrChild(Child::CFam(Fam::Expr)), |x: Option<Vec<Expression>>| Some(opt_arr_expr_of(x))),
    decreases jv_pairs(ps@), 4int, 0int,
{
    proof {
        reveal(crate::ast::canon::canon_field);
        reveal(crate::ast::canon::canon_value);
    }
    match obj_get(ps, k) {
        None => Ok(None),
        Some(v) => match v {
            JsonValue::Null => {
                proof {
                    lemma_canon_value_opt_arr_unfold(jv(*v), FieldKind::KOptArrChild(Child::CFam(Fam::Expr)), FieldKind::KChild(Child::CFam(Fam::Expr)));
                }
                Ok(None)
            },
            JsonValue::Arr(elems) => {
                proof {
                    lemma_canon_value_opt_arr_unfold(jv(*v), FieldKind::KOptArrChild(Child::CFam(Fam::Expr)), FieldKind::KChild(Child::CFam(Fam::Expr)));
                    assert(jv(*v) == JsonV::Arr(jv_seq(elems@)));
                    lemma_jv_pairs(ps@);
                    let i = choose|i: int| 0 <= i < ps@.len() && ps@[i].1 == *v;
                    assert(jv_pairs(ps@)[i] == (ps@[i].0@, jv(*v)));
                    assert(decreases_to!(jv_pairs(ps@) => jv_pairs(ps@)[i].1));
                    assert(jv(*v)->Arr_0 == jv_seq(elems@));
                    assert(decreases_to!(jv(*v) => jv(*v)->Arr_0));
                }
                match core_arr_expr(elems) {
                    Ok(xs) => Ok(Some(xs)),
                    Err(e) => Err(prefix_field(k, e)),
                }
            },
            _ => {
                proof {
                    lemma_canon_value_opt_arr_unfold(jv(*v), FieldKind::KOptArrChild(Child::CFam(Fam::Expr)), FieldKind::KChild(Child::CFam(Fam::Expr)));
                }
                Err(DecodeError::Invalid(k.to_owned()))
            },
        },
    }
}

/// Reads an optional expr member.
pub(crate) fn g_oc_expr(ps: &Vec<(String, JsonValue)>, k: &str) -> (r: Result<
    Option<Expression>,
    DecodeError,
>)
    ensures
        field_matches(
            r,
            ps@,
            k@,
            FieldKind::KOptChild(Child::CFam(Fam::Expr)),
            |x: Option<Expression>| Some(opt_expr_of(x)),
        ),
    decreases jv_pairs(ps@), 4int, 0int,
{
    proof {
        reveal(crate::ast::canon::canon_field);
        reveal(crate::ast::canon::canon_value);
    }
    match obj_get(ps, k) {
        None => Ok(None),
        Some(v) => match v {
            JsonValue::Null => {
                proof {
                    lemma_canon_value_opt_child_unfold(jv(*v), Child::CFam(Fam::Expr));
                }
                Ok(None)
            },
            _ => {
                proof {
                    lemma_canon_value_opt_child_unfold(jv(*v), Child::CFam(Fam::Expr));
                    lemma_jv_pairs(ps@);
                    let i = choose|i: int| 0 <= i < ps@.len() && ps@[i].1 == *v;
                    assert(jv_pairs(ps@)[i] == (ps@[i].0@, jv(*v)));
                    assert(decreases_to!(jv_pairs(ps@) => jv_pairs(ps@)[i].1));
                }
                match decode_expression(v) {
                    Ok(x) => Ok(Some(x)),
                    Err(e) => {
                        proof {
                            crate::ast::dec_leaf::lemma_canon_node_err_shape(jv(*v), Fam::Expr);
                        }
                        Err(prefix_field(k, e))
                    },
                }
            },
        },
    }
}

/// Reads a required nested function call member.
pub(crate) fn g_c_function_call(ps: &Vec<(String, JsonValue)>, k: &str) -> (r: Result<FunctionCall, DecodeError>)
    ensures
        field_matches(
            r,
            ps@,
            k@,
            FieldKind::KChild(Child::CRec(RecId::RFunctionCall)),
            |x: FunctionCall| Some(JsonV::Obj(enc_function_call(x))),
        ),
    decreases jv_pairs(ps@), 4int, 0int,
{
    proof {
        reveal(crate::ast::canon::canon_field);
        reveal(crate::ast::canon::canon_value);
    }
    match obj_get(ps, k) {
        None => Err(DecodeError::Missing(k.to_owned())),
        Some(v) => match v {
            JsonValue::Obj(cps) => {
                proof {
                    assert(jv(*v) == JsonV::Obj(jv_pairs(cps@)));
                    lemma_jv_pairs(ps@);
                    let i = choose|i: int| 0 <= i < ps@.len() && ps@[i].1 == *v;
                    assert(jv_pairs(ps@)[i] == (ps@[i].0@, jv(*v)));
                    assert(decreases_to!(jv_pairs(ps@) => jv_pairs(ps@)[i].1));
                    assert(jv(*v)->Obj_0 == jv_pairs(cps@));
                    assert(decreases_to!(jv(*v) => jv(*v)->Obj_0));
                }
                match decode_function_call(cps) {
                    Ok(x) => Ok(x),
                    Err(e) => {
                        proof {
                            lemma_canon_fields_err_shape(jv_pairs(cps@), schema(RecId::RFunctionCall), 0);
                        }
                        Err(prefix_field(k, e))
                    },
                }
            },
            _ => Err(DecodeError::Invalid(k.to_owned())),
        },
    }
}

/// Reads a required function_call_expression member.
pub(crate) fn g_c_function_call_expression(ps: &Vec<(String, JsonValue)>, k: &str) -> (r: Result<FunctionCallExpression, DecodeError>)
    ensures
        field_matches(
            r,
            ps@,
            k@,
            FieldKind::KChild(Child::CFam(Fam::FnCallExpr)),
            |x: FunctionCallExpression| Some(enc_function_call_expression(x)),
        ),
    decreases jv_pairs(ps@), 4int, 0int,
{
    proof {
        reveal(crate::ast::canon::canon_field);
        reveal(crate::ast::canon::canon_value);
    }
    match obj_get(ps, k) {
        None => Err(DecodeError::Missing(k.to_owned())),
        Some(v) => {
            proof {
                lemma_jv_pairs(ps@);
                let i = choose|i: int| 0 <= i < ps@.len() && ps@[i].1 == *v;
                assert(jv_pairs(ps@)[i] == (ps@[i].0@, jv(*v)));
                assert(decreases_to!(jv_pairs(ps@) => jv_pairs(ps@)[i].1));
            }
            match decode_function_call_expression(v) {
                Ok(x) => Ok(x),
                Err(e) => {
                    proof {
                        crate::ast::dec_leaf::lemma_canon_node_err_shape(jv(*v), Fam::FnCallExpr);
                    }
                    Err(prefix_field(k, e))
                },
            }
        },
    }
}

/// Decodes a assignment record from the members of an object.
pub fn decode_assignment(ps: &Vec<(String, JsonValue)>) -> (r: Result<Assignment, DecodeError>)
    ensures
        match r {
            Ok(x) => canon_fields(jv_pairs(ps@), schema(RecId::RAssignment), 0) == Ok::<
                Seq<(Seq<char>, JsonV)>,
                ErrV,
            >(enc_assignment(x)),
            Err(e) => canon_fields(jv_pairs(ps@), schema(RecId::RAssignment), 0) == Err::<
                Seq<(Seq<char>, JsonV)>,
                ErrV,
            >(e.model()),
        },
    decreases jv_pairs(ps@), 5int, 0int,
{
    let ghost psv = jv_pairs(ps@);
    let ghost fs = schema(RecId::RAssignment);
    let id = match g_i64(ps, "id") {
        Ok(x) => x,
        Err(e) => {
            proof {
                lemma_canon_fields_first_err(psv, fs, 0, 0, e.model());
            }
            return Err(e);
        },
    };
    let left_hand_side = match g_c_expr(ps, "leftHandSide") {
        Ok(x) => x,
        Err(e) => {
            proof {
                assert forall|m: int| 0 <= m < 1 implies canon_field(
                    psv,
                    (#[trigger] fs[m]).0,
                    fs[m].1,
                ) is Ok by {}
                lemma_canon_fields_first_err(psv, fs, 0, 1, e.model());
            }
            return Err(e);
        },
    };
    let right_hand_side = match g_c_expr(ps, "rightHandSide") {
        Ok(x) => x,
        Err(e) => {
            proof {
                assert forall|m: int| 0 <= m < 2 implies canon_field(
                    psv,
                    (#[trigger] fs[m]).0,
                    fs[m].1,
                ) is Ok by {}
                lemma_canon_fields_first_err(psv, fs, 0, 2, e.model());
            }
            return Err(e);
        },
    };
    let operator = match g_str(ps, "operator") {
        Ok(x) => x,
        Err(e) => {
            proof {
                assert forall|m: int| 0 <= m < 3 implies canon_field(
                    psv,
                    (#[trigger] fs[m]).0,
                    fs[m].1,
                ) is Ok by {}
                lemma_canon_fields_first_err(psv, fs, 0, 3, e.model());
            }
            return Err(e);
        },
    };
    let src = match g_src(ps, "src") {
        Ok(x) => x,
        Err(e) => {
            proof {
                assert forall|m: int| 0 <= m < 4 implies canon_field(
                    psv,
                    (#[trigger] fs[m]).0,
                    fs[m].1,
                ) is Ok by {}
                lemma_canon_fields_first_err(psv, fs, 0, 4, e.model());
            }
            return Err(e);
        },
    };
    let type_descriptions = match crate::ast::dec_leaf::g_c_type_descriptions(ps, "typeDescriptions") {
        Ok(x) => x,
        Err(e) => {
            proof {
                assert forall|m: int| 0 <= m < 5 implies canon_field(
                    psv,
                    (#[trigger] fs[m]).0,
                    fs[m].1,
                ) is Ok by {}
                lemma_canon_fields_first_err(psv, fs, 0, 5, e.model());
            }
            return Err(e);
        },
    };
    let result = Assignment { id, left_hand_side, right_hand_side, operator, src, type_descriptions };
    let ghost outs: Seq<(Seq<char>, Option<JsonV>)> = seq![
        ("id"@, Some(JsonV::Int(result.id as int))),
        ("leftHandSide"@, Some(enc_expr(result.left_hand_side))),
        ("rightHandSide"@, Some(enc_expr(result.right_hand_side))),
        ("operator"@, Some(JsonV::Str(result.operator@))),
        ("src"@, Some(JsonV::Str(spec_encode_location(result.src)))),
        ("typeDescriptions"@, Some(JsonV::Obj(enc_type_descriptions(result.type_descriptions)))),
    ];
    proof {
        assert forall|j: int| 0 <= j < fs.len() implies (#[trigger] outs[j]).0 == fs[j].0
            && canon_field(psv, fs[j].0, fs[j].1) == Ok::<Option<JsonV>, ErrV>(outs[j].1) by {}
        lemma_canon_fields_ok(psv, fs, outs, 0);
        assert(cat_opts(outs, 0) =~= enc_assignment(result)) by {
            reveal_with_fuel(cat_opts, 8);
        }
    }
    Ok(result)
}

/// Decodes a binaryOperation record from the members of an object.
#[verifier::rlimit(80)]
pub fn decode_binary_operation(ps: &Vec<(String, JsonValue)>) -> (r: Result<BinaryOperation, DecodeError>)
    ensures
        match r {
            Ok(x) => canon_fields(jv_pairs(ps@), schema(RecId::RBinaryOperation), 0) == Ok::<
                Seq<(Seq<char>, JsonV)>,
                ErrV,
            >(enc_binary_operation(x)),
            Err(e) => canon_fields(jv_pairs(ps@), schema(RecId::RBinaryOperation), 0) == Err::<
                Seq<(Seq<char>, JsonV)>,
                ErrV,
            >(e.model()),
        },
    decreases jv_pairs(ps@), 5int, 0int,
{
    let ghost psv = jv_pairs(ps@);
    let ghost fs = schema(RecId::RBinaryOperation);
    let id = match g_i64(ps, "id") {
        Ok(x) => x,
        Err(e) => {
            proof {
                lemma_canon_fields_first_err(psv, fs, 0, 0, e.model());
            }
            return Err(e);
        },
    };
    let left_expression = match g_c_expr(ps, "leftExpression") {
        Ok(x) => x,
        Err(e) => {
            proof {
                assert forall|m: int| 0 <= m < 1 implies canon_field(
                    psv,
                    (#[trigger] fs[m]).0,
                    fs[m].1,
                ) is Ok by {}
                lemma_canon_fields_first_err(psv, fs, 0, 1, e.model());
            }
            return Err(e);
        },
    };
    let right_expression = match g_c_expr(ps, "rightExpression") {
        Ok(x) => x,
        Err(e) => {
            proof {
                assert forall|m: int| 0 <= m < 2 implies canon_field(
                    psv,
                    (#[trigger] fs[m]).0,
                    fs[m].1,
                ) is Ok by {}
                lemma_canon_fields_first_err(psv, fs, 0, 2, e.model());
            }
            return Err(e);
        },
    };
    let operator = match g_str(ps, "operator") {
        Ok(x) => x,
        Err(e) => {
            proof {
                assert forall|m: int| 0 <= m < 3 implies canon_field(
                    psv,
                    (#[trigger] fs[m]).0,
                    fs[m].1,
                ) is Ok by {}
                lemma_canon_fields_first_err(psv, fs, 0, 3, e.model());
            }
            return Err(e);
        },
    };
    let common_type = match crate::ast::dec_leaf::g_c_common_type(ps, "commonType") {
        Ok(x) => x,
        Err(e) => {
            proof {
                assert forall|m: int| 0 <= m < 4 implies canon_field(
                    psv,
                    (#[trigger] fs[m]).0,
                    fs[m].1,
                ) is Ok by {}
                lemma_canon_fields_first_err(psv, fs, 0, 4, e.model());
            }
            return Err(e);
        },
    };
    let src = match g_src(ps, "src") {
        Ok(x) => x,
        Err(e) => {
            proof {
                assert forall|m: int| 0 <= m < 5 implies canon_field(
                    psv,
                    (#[trigger] fs[m]).0,
                    fs[m].1,
                ) is Ok by {}
                lemma_canon_fields_first_err(psv, fs, 0, 5, e.model());
            }
            return Err(e);
        },
    };
    let is_constant = match g_bool(ps, "isConstant") {
        Ok(x) => x,
        Err(e) => {
            proof {
                assert forall|m: int| 0 <= m < 6 implies canon_field(
                    psv,
                    (#[trigger] fs[m]).0,
                    fs[m].1,
                ) is Ok by {}
                lemma_canon_fields_first_err(psv, fs, 0, 6, e.model());
            }
            return Err(e);
        },
    };
    let is_l_value = match g_bool(ps, "isLValue") {
        Ok(x) => x,
        Err(e) => {
            proof {
                assert forall|m: int| 0 <= m < 7 implies canon_field(
                    psv,
                    (#[trigger] fs[m]).0,
                    fs[m].1,
                ) is Ok by {}
                lemma_canon_fields_first_err(psv, fs, 0, 7, e.model());
            }
            return Err(e);
        },
    };
    let is_pure = match g_bool(ps, "isPure") {
        Ok(x) => x,
        Err(e) => {
            proof {
                assert forall|m: int| 0 <= m < 8 implies canon_field(
                    psv,
                    (#[trigger] fs[m]).0,
                    fs[m].1,
                ) is Ok by {}
                lemma_canon_fields_first_err(psv, fs, 0, 8, e.model());
            }
            return Err(e);
        },
    };
    let l_value_requested = match g_bool(ps, "lValueRequested") {
        Ok(x) => x,
        Err(e) => {
            proof {
                assert forall|m: int| 0 <= m < 9 implies canon_field(
                    psv,
                    (#[trigger] fs[m]).0,
                    fs[m].1,
                ) is Ok by {}
                lemma_canon_fields_first_err(psv, fs, 0, 9, e.model());
            }
            return Err(e);
        },
    };
    let type_descriptions = match crate::ast::dec_leaf::g_c_type_descriptions(ps, "typeDescriptions") {
        Ok(x) => x,
        Err(e) => {
            proof {
                assert forall|m: int| 0 <= m < 10 implies canon_field(
                    psv,
                    (#[trigger] fs[m]).0,
                    fs[m].1,
                ) is Ok by {}
                lemma_canon_fields_first_err(psv, fs, 0, 10, e.model());
            }
            return Err(e);
        },
    };
    let result = BinaryOperation { id, left_expression, right_expression, operator, common_type, src, is_constant, is_l_value, is_pure, l_value_requested, type_descriptions };
    let ghost outs: Seq<(Seq<char>, Option<JsonV>)> = seq![
        ("id"@, Some(JsonV::Int(result.id as int))),
        ("leftExpression"@, Some(enc_expr(result.left_expression))),
        ("rightExpression"@, Some(enc_expr(result.right_expression))),
        ("operator"@, Some(JsonV::Str(result.operator@))),
        ("commonType"@, Some(JsonV::Obj(enc_common_type(result.common_type)))),
        ("src"@, Some(JsonV::Str(spec_encode_location(result.src)))),
        ("isConstant"@, Some(JsonV::Bool(result.is_constant))),
        ("isLValue"@, Some(JsonV::Bool(result.is_l_value))),
        ("isPure"@, Some(JsonV::Bool(result.is_pure))),
        ("lValueRequested"@, Some(JsonV::Bool(result.l_value_requested))),
        ("typeDescriptions"@, Some(JsonV::Obj(enc_type_descriptions(result.type_descriptions)))),
    ];
    proof {
        assert forall|j: int| 0 <= j < fs.len() implies (#[trigger] outs[j]).0 == fs[j].0
            && canon_field(psv, fs[j].0, fs[j].1) == Ok::<Option<JsonV>, ErrV>(outs[j].1) by {}
        lemma_canon_fields_ok(psv, fs, outs, 0);
        assert(cat_opts(outs, 0) =~= enc_binary_operation(result)) by {
            reveal_with_fuel(cat_opts, 13);
        }
    }
    Ok(result)
}

/// Decodes a conditional record from the members of an object.
#[verifier::rlimit(80)]
pub fn decode_conditional(ps: &Vec<(String, JsonValue)>) -> (r: Result<Conditional, DecodeError>)
    ensures
        match r {
            Ok(x) => canon_fields(jv_pairs(ps@), schema(RecId::RConditional), 0) == Ok::<
                Seq<(Seq<char>, JsonV)>,
                ErrV,
            >(enc_conditional(x)),
            Err(e) => canon_fields(jv_pairs(ps@), schema(RecId::RConditional), 0) == Err::<
                Seq<(Seq<char>, JsonV)>,
                ErrV,
            >(e.model()),
        },
    decreases jv_pairs(ps@), 5int, 0int,
{
    let ghost psv = jv_pairs(ps@);
    let ghost fs = schema(RecId::RConditional);
    let id = match g_i64(ps, "id") {
        Ok(x) => x,
        Err(e) => {
            proof {
                lemma_canon_fields_first_err(psv, fs, 0, 0, e.model());
            }
            return Err(e);
        },
    };
    let condition = match g_c_expr(ps, "condition") {
        Ok(x) => x,
        Err(e) => {
            proof {
                assert forall|m: int| 0 <= m < 1 implies canon_field(
                    psv,
                    (#[trigger] fs[m]).0,
                    fs[m].1,
                ) is Ok by {}
                lemma_canon_fields_first_err(psv, fs, 0, 1, e.model());
            }
            return Err(e);
        },
    };
    let true_expression = match g_c_expr(ps, "trueExpression") {
        Ok(x) => x,
        Err(e) => {
            proof {
                assert forall|m: int| 0 <= m < 2 implies canon_field(
                    psv,
                    (#[trigger] fs[m]).0,
                    fs[m].1,
                ) is Ok by {}
                lemma_canon_fields_first_err(psv, fs, 0, 2, e.model());
            }
            return Err(e);
        },
    };
    let false_expression = match g_c_expr(ps, "falseExpression") {
        Ok(x) => x,
        Err(e) => {
            proof {
                assert forall|m: int| 0 <= m < 3 implies canon_field(
                    psv,
                    (#[trigger] fs[m]).0,
                    fs[m].1,
                ) is Ok by {}
                lemma_canon_fields_first_err(psv, fs, 0, 3, e.model());
            }
            return Err(e);
        },
    };
    let is_constant = match g_bool(ps, "isConstant") {
        Ok(x) => x,
        Err(e) => {
            proof {
                assert forall|m: int| 0 <= m < 4 implies canon_field(
                    psv,
                    (#[trigger] fs[m]).0,
                    fs[m].1,
                ) is Ok by {}
                lemma_canon_fields_first_err(psv, fs, 0, 4, e.model());
            }
            return Err(e);
        },
    };
    let is_l_value = match g_bool(ps, "isLValue") {
        Ok(x) => x,
        Err(e) => {
            proof {
                assert forall|m: int| 0 <= m < 5 implies canon_field(
                    psv,
                    (#[trigger] fs[m]).0,
                    fs[m].1,
                ) is Ok by {}
                lemma_canon_fields_first_err(psv, fs, 0, 5, e.model());
            }
            return Err(e);
        },
    };
    let is_pure = match g_bool(ps, "isPure") {
        Ok(x) => x,
        Err(e) => {
            proof {
                assert forall|m: int| 0 <= m < 6 implies canon_field(
                    psv,
                    (#[trigger] fs[m]).0,
                    fs[m].1,
                ) is Ok by {}
                lemma_canon_fields_first_err(psv, fs, 0, 6, e.model());
            }
            return Err(e);
        },
    };
    let l_value_requested = match g_bool(ps, "lValueRequested") {
        Ok(x) => x,
        Err(e) => {
            proof {
                assert forall|m: int| 0 <= m < 7 implies canon_field(
                    psv,
                    (#[trigger] fs[m]).0,
                    fs[m].1,
                ) is Ok by {}
                lemma_canon_fields_first_err(psv, fs, 0, 7, e.model());
            }
            return Err(e);
        },
    };
    let src = match g_src(ps, "src") {
        Ok(x) => x,
        Err(e) => {
            proof {
                assert forall|m: int| 0 <= m < 8 implies canon_field(
                    psv,
                    (#[trigger] fs[m]).0,
                    fs[m].1,
                ) is Ok by {}
                lemma_canon_fields_first_err(psv, fs, 0, 8, e.model());
            }
            return Err(e);
        },
    };
    let type_descriptions = match crate::ast::dec_leaf::g_c_type_descriptions(ps, "typeDescriptions") {
        Ok(x) => x,
        Err(e) => {
            proof {
                assert forall|m: int| 0 <= m < 9 implies canon_field(
                    psv,
                    (#[trigger] fs[m]).0,
                    fs[m].1,
                ) is Ok by {}
                lemma_canon_fields_first_err(psv, fs, 0, 9, e.model());
            }
            return Err(e);
        },
    };
    let result = Conditional { id, condition, true_expression, false_expression, is_constant, is_l_value, is_pure, l_value_requested, src, type_descriptions };
    let ghost outs: Seq<(Seq<char>, Option<JsonV>)> = seq![
        ("id"@, Some(JsonV::Int(result.id as int))),
        ("condition"@, Some(enc_expr(result.condition))),
        ("trueExpression"@, Some(enc_expr(result.true_expression))),
        ("falseExpression"@, Some(enc_expr(result.false_expression))),
        ("isConstant"@, Some(JsonV::Bool(result.is_constant))),
        ("isLValue"@, Some(JsonV::Bool(result.is_l_value))),
        ("isPure"@, Some(JsonV::Bool(result.is_pure))),
        ("lValueRequested"@, Some(JsonV::Bool(result.l_value_requested))),
        ("src"@, Some(JsonV::Str(spec_encode_location(result.src)))),
        ("typeDescriptions"@, Some(JsonV::Obj(enc_type_descriptions(result.type_descriptions)))),
    ];
    proof {
        assert forall|j: int| 0 <= j < fs.len() implies (#[trigger] outs[j]).0 == fs[j].0
            && canon_field(psv, fs[j].0, fs[j].1) == Ok::<Option<JsonV>, ErrV>(outs[j].1) by {}
        lemma_canon_fields_ok(psv, fs, outs, 0);
        assert(cat_opts(outs, 0) =~= enc_conditional(result)) by {
            reveal_with_fuel(cat_opts, 12);
        }
    }
    Ok(result)
}

/// Decodes a elementaryTypeNameExpression record from the members of an object.
pub fn decode_elementary_type_name_expression(ps: &Vec<(String, JsonValue)>) -> (r: Result<ElementaryTypeNameExpression, DecodeError>)
    ensures
        match r {
            Ok(x) => canon_fields(jv_pairs(ps@), schema(RecId::RElementaryTypeNameExpression), 0) == Ok::<
                Seq<(Seq<char>, JsonV)>,
                ErrV,
            >(enc_elementary_type_name_expression(x)),
            Err(e) => canon_fields(jv_pairs(ps@), schema(RecId::RElementaryTypeNameExpression), 0) == Err::<
                Seq<(Seq<char>, JsonV)>,
                ErrV,
            >(e.model()),
        },
{
    let ghost psv = jv_pairs(ps@);
    let ghost fs = schema(RecId::RElementaryTypeNameExpression);
    let id = match g_i64(ps, "id") {
        Ok(x) => x,
        Err(e) => {
            proof {
                lemma_canon_fields_first_err(psv, fs, 0, 0, e.model());
            }
            return Err(e);
        },
    };
    let typename = match crate::ast::dec_leaf::g_c_elementary_type_name(ps, "typeName") {
        Ok(x) => x,
        Err(e) => {
            proof {
                assert forall|m: int| 0 <= m < 1 implies canon_field(
                    psv,
                    (#[trigger] fs[m]).0,
                    fs[m].1,
                ) is Ok by {}
                lemma_canon_fields_first_err(psv, fs, 0, 1, e.model());
            }
            return Err(e);
        },
    };
    let src = match g_src(ps, "src") {
        Ok(x) => x,
        Err(e) => {
            proof {
                assert forall|m: int| 0 <= m < 2 implies canon_field(
                    psv,
                    (#[trigger] fs[m]).0,
                    fs[m].1,
                ) is Ok by {}
                lemma_canon_fields_first_err(psv, fs, 0, 2, e.model());
            }
            return Err(e);
        },
    };
    let type_descriptions = match crate::ast::dec_leaf::g_c_type_descriptions(ps, "typeDescriptions") {
        Ok(x) => x,
        Err(e) => {
            proof {
                assert forall|m: int| 0 <= m < 3 implies canon_field(
                    psv,
                    (#[trigger] fs[m]).0,
                    fs[m].1,
                ) is Ok by {}
                lemma_canon_fields_first_err(psv, fs, 0, 3, e.model());
            }
            return Err(e);
        },
    };
    let argument_types = match crate::ast::dec_leaf::g_oac_type_descriptions(ps, "argumentTypes") {
        Ok(x) => x,
        Err(e) => {
            proof {
                assert forall|m: int| 0 <= m < 4 implies canon_field(
                    psv,
                    (#[trigger] fs[m]).0,
                    fs[m].1,
                ) is Ok by {}
                lemma_canon_fields_first_err(psv, fs, 0, 4, e.model());
            }
            return Err(e);
        },
    };
    let result = ElementaryTypeNameExpression { id, typename, src, type_descriptions, argument_types };
    let ghost outs: Seq<(Seq<char>, Option<JsonV>)> = seq![
        ("id"@, Some(JsonV::Int(result.id as int))),
        ("typeName"@, Some(JsonV::Obj(enc_elementary_type_name(result.typename)))),
        ("src"@, Some(JsonV::Str(spec_encode_location(result.src)))),
        ("typeDescriptions"@, Some(JsonV::Obj(enc_type_descriptions(result.type_descriptions)))),
        ("argumentTypes"@, Some(opt_arr_type_descriptions_of(result.argument_types))),
    ];
    proof {
        assert forall|j: int| 0 <= j < fs.len() implies (#[trigger] outs[j]).0 == fs[j].0
            && canon_field(psv, fs[j].0, fs[j].1) == Ok::<Option<JsonV>, ErrV>(outs[j].1) by {}
        lemma_canon_fields_ok(psv, fs, outs, 0);
        assert(cat_opts(outs, 0) =~= enc_elementary_type_name_expression(result)) by {
            reveal_with_fuel(cat_opts, 7);
        }
    }
    Ok(result)
}

/// Decodes a functionCall record from the members of an object.
#[verifier::rlimit(100)]
#[verifier::spinoff_prover]
pub fn decode_function_call(ps: &Vec<(String, JsonValue)>) -> (r: Result<FunctionCall, DecodeError>)
    ensures
        match r {
            Ok(x) => canon_fields(jv_pairs(ps@), schema(RecId::RFunctionCall), 0) == Ok::<
                Seq<(Seq<char>, JsonV)>,
                ErrV,
            >(enc_function_call(x)),
            Err(e) => canon_fields(jv_pairs(ps@), schema(RecId::RFunctionCall), 0) == Err::<
                Seq<(Seq<char>, JsonV)>,
                ErrV,
            >(e.model()),
        },
    decreases jv_pairs(ps@), 5int, 0int,
{
    let ghost psv = jv_pairs(ps@);
    let ghost fs = schema(RecId::RFunctionCall);
    let id = match g_i64(ps, "id") {
        Ok(x) => x,
        Err(e) => {
            proof {
                lemma_canon_fields_first_err(psv, fs, 0, 0, e.model());
            }
            return Err(e);
        },
    };
    let expression = match g_c_function_call_expression(ps, "expression") {
        Ok(x) => x,
        Err(e) => {
            proof {
                assert forall|m: int| 0 <= m < 1 implies canon_field(
                    psv,
                    (#[trigger] fs[m]).0,
                    fs[m].1,
                ) is Ok by {}
                lemma_canon_fields_first_err(psv, fs, 0, 1, e.model());
            }
            return Err(e);
        },
    };
    let arguments = match g_ac_expr(ps, "arguments") {
        Ok(x) => x,
        Err(e) => {
            proof {
                assert forall|m: int| 0 <= m < 2 implies canon_field(
                    psv,
                    (#[trigger] fs[m]).0,
                    fs[m].1,
                ) is Ok by {}
                lemma_canon_fields_first_err(psv, fs, 0, 2, e.model());
            }
            return Err(e);
        },
    };
    let names = match crate::ast::dec_leaf::g_arr_str(ps, "names") {
        Ok(x) => x,
        Err(e) => {
            proof {
                assert forall|m: int| 0 <= m < 3 implies canon_field(
                    psv,
                    (#[trigger] fs[m]).0,
                    fs[m].1,
                ) is Ok by {}
                lemma_canon_fields_first_err(psv, fs, 0, 3, e.model());
            }
            return Err(e);
        },
    };
    let kind = match g_str(ps, "kind") {
        Ok(x) => x,
        Err(e) => {
            proof {
                assert forall|m: int| 0 <= m < 4 implies canon_field(
                    psv,
                    (#[trigger] fs[m]).0,
                    fs[m].1,
                ) is Ok by {}
                lemma_canon_fields_first_err(psv, fs, 0, 4, e.model());
            }
            return Err(e);
        },
    };
    let src = match g_src(ps, "src") {
        Ok(x) => x,
        Err(e) => {
            proof {
                assert forall|m: int| 0 <= m < 5 implies canon_field(
                    psv,
                    (#[trigger] fs[m]).0,
                    fs[m].1,
                ) is Ok by {}
                lemma_canon_fields_first_err(psv, fs, 0, 5, e.model());
            }
            return Err(e);
        },
    };
    let try_call = match g_bool(ps, "tryCall") {
        Ok(x) => x,
        Err(e) => {
            proof {
                assert forall|m: int| 0 <= m < 6 implies canon_field(
                    psv,
                    (#[trigger] fs[m]).0,
                    fs[m].1,
                ) is Ok by {}
                lemma_canon_fields_first_err(psv, fs, 0, 6, e.model());
            }
            return Err(e);
        },
    };
    let name_locations = match crate::ast::dec_leaf::g_opt_arr_str(ps, "nameLocations") {
        Ok(x) => x,
        Err(e) => {
            proof {
                assert forall|m: int| 0 <= m < 7 implies canon_field(
                    psv,
                    (#[trigger] fs[m]).0,
                    fs[m].1,
                ) is Ok by {}
                lemma_canon_fields_first_err(psv, fs, 0, 7, e.model());
            }
            return Err(e);
        },
    };
    let is_constant = match g_bool(ps, "isConstant") {
        Ok(x) => x,
        Err(e) => {
            proof {
                assert forall|m: int| 0 <= m < 8 implies canon_field(
                    psv,
                    (#[trigger] fs[m]).0,
                    fs[m].1,
                ) is Ok by {}
                lemma_canon_fields_first_err(psv, fs, 0, 8, e.model());
            }
            return Err(e);
        },
    };
    let is_l_value = match g_bool(ps, "isLValue") {
        Ok(x) => x,
        Err(e) => {
            proof {
                assert forall|m: int| 0 <= m < 9 implies canon_field(
                    psv,
                    (#[trigger] fs[m]).0,
                    fs[m].1,
                ) is Ok by {}
                lemma_canon_fields_first_err(psv, fs, 0, 9, e.model());
            }
            return Err(e);
        },
    };
    let is_pure = match g_bool(ps, "isPure") {
        Ok(x) => x,
        Err(e) => {
            proof {
                assert forall|m: int| 0 <= m < 10 implies canon_field(
                    psv,
                    (#[trigger] fs[m]).0,
                    fs[m].1,
                ) is Ok by {}
                lemma_canon_fields_first_err(psv, fs, 0, 10, e.model());
            }
            return Err(e);
        },
    };
    let l_value_requested = match g_bool(ps, "lValueRequested") {
        Ok(x) => x,
        Err(e) => {
            proof {
                assert forall|m: int| 0 <= m < 11 implies canon_field(
                    psv,
                    (#[trigger] fs[m]).0,
                    fs[m].1,
                ) is Ok by {}
                lemma_canon_fields_first_err(psv, fs, 0, 11, e.model());
            }
            return Err(e);
        },
    };
    let type_descriptions = match crate::ast::dec_leaf::g_c_type_descriptions(ps, "typeDescriptions") {
        Ok(x) => x,
        Err(e) => {
            proof {
                assert forall|m: int| 0 <= m < 12 implies canon_field(
                    psv,
                    (#[trigger] fs[m]).0,
                    fs[m].1,
                ) is Ok by {}
                lemma_canon_fields_first_err(psv, fs, 0, 12, e.model());
            }
            return Err(e);
        },
    };
    let argument_types = match crate::ast::dec_leaf::g_oac_type_descriptions(ps, "argumentTypes") {
        Ok(x) => x,
        Err(e) => {
            proof {
                assert forall|m: int| 0 <= m < 13 implies canon_field(
                    psv,
                    (#[trigger] fs[m]).0,
                    fs[m].1,
                ) is Ok by {}
                lemma_canon_fields_first_err(psv, fs, 0, 13, e.model());
            }
            return Err(e);
        },
    };
    let result = FunctionCall { id, expression, arguments, names, kind, src, try_call, name_locations, is_constant, is_l_value, is_pure, l_value_requested, type_descriptions, argument_types };
    let ghost outs: Seq<(Seq<char>, Option<JsonV>)> = seq![
        ("id"@, Some(JsonV::Int(result.id as int))),
        ("expression"@, Some(enc_function_call_expression(result.expression))),
        ("arguments"@, Some(JsonV::Arr(seq_expr_of(result.arguments@)))),
        ("names"@, Some(JsonV::Arr(strs_of(result.names@)))),
        ("kind"@, Some(JsonV::Str(result.kind@))),
        ("src"@, Some(JsonV::Str(spec_encode_location(result.src)))),
        ("tryCall"@, Some(JsonV::Bool(result.try_call))),
        ("nameLocations"@, Some(opt_strs_of(result.name_locations))),
        ("isConstant"@, Some(JsonV::Bool(result.is_constant))),
        ("isLValue"@, Some(JsonV::Bool(result.is_l_value))),
        ("isPure"@, Some(JsonV::Bool(result.is_pure))),
        ("lValueRequested"@, Some(JsonV::Bool(result.l_value_requested))),
        ("typeDescriptions"@, Some(JsonV::Obj(enc_type_descriptions(result.type_descriptions)))),
        ("argumentTypes"@, Some(opt_arr_type_descriptions_of(result.argument_types))),
    ];
    proof {
        assert forall|j: int| 0 <= j < fs.len() implies (#[trigger] outs[j]).0 == fs[j].0
            && canon_field(psv, fs[j].0, fs[j].1) == Ok::<Option<JsonV>, ErrV>(outs[j].1) by {}
        lemma_canon_fields_ok(psv, fs, outs, 0);
        assert(cat_opts(outs, 0) =~= enc_function_call(result)) by {
            reveal_with_fuel(cat_opts, 16);
        }
    }
    Ok(result)
}

/// Decodes a indexAccess record from the members of an object.
pub fn decode_index_access(ps: &Vec<(String, JsonValue)>) -> (r: Result<IndexAccess, DecodeError>)
    ensures
        match r {
            Ok(x) => canon_fields(jv_pairs(ps@), schema(RecId::RIndexAccess), 0) == Ok::<
                Seq<(Seq<char>, JsonV)>,
                ErrV,
            >(enc_index_access(x)),
            Err(e) => canon_fields(jv_pairs(ps@), schema(RecId::RIndexAccess), 0) == Err::<
                Seq<(Seq<char>, JsonV)>,
                ErrV,
            >(e.model()),
        },
    decreases jv_pairs(ps@), 5int, 0int,
{
    let ghost psv = jv_pairs(ps@);
    let ghost fs = schema(RecId::RIndexAccess);
    let id = match g_i64(ps, "id") {
        Ok(x) => x,
        Err(e) => {
            proof {
                lemma_canon_fields_first_err(psv, fs, 0, 0, e.model());
            }
            return Err(e);
        },
    };
    let base_expression = match g_c_expr(ps, "baseExpression") {
        Ok(x) => x,
        Err(e) => {
            proof {
                assert forall|m: int| 0 <= m < 1 implies canon_field(
                    psv,
                    (#[trigger] fs[m]).0,
                    fs[m].1,
                ) is Ok by {}
                lemma_canon_fields_first_err(psv, fs, 0, 1, e.model());
            }
            return Err(e);
        },
    };
    let index_expression = match g_oc_expr(ps, "indexExpression") {
        Ok(x) => x,
        Err(e) => {
            proof {
                assert forall|m: int| 0 <= m < 2 implies canon_field(
                    psv,
                    (#[trigger] fs[m]).0,
                    fs[m].1,
                ) is Ok by {}
                lemma_canon_fields_first_err(psv, fs, 0, 2, e.model());
            }
            return Err(e);
        },
    };
    let src = match g_src(ps, "src") {
        Ok(x) => x,
        Err(e) => {
            proof {
                assert forall|m: int| 0 <= m < 3 implies canon_field(
                    psv,
                    (#[trigger] fs[m]).0,
                    fs[m].1,
                ) is Ok by {}
                lemma_canon_fields_first_err(psv, fs, 0, 3, e.model());
            }
            return Err(e);
        },
    };
    let type_descriptions = match crate::ast::dec_leaf::g_c_type_descriptions(ps, "typeDescriptions") {
        Ok(x) => x,
        Err(e) => {
            proof {
                assert forall|m: int| 0 <= m < 4 implies canon_field(
                    psv,
                    (#[trigger] fs[m]).0,
                    fs[m].1,
                ) is Ok by {}
                lemma_canon_fields_first_err(psv, fs, 0, 4, e.model());
            }
            return Err(e);
        },
    };
    let result = IndexAccess { id, base_expression, index_expression, src, type_descriptions };
    let ghost outs: Seq<(Seq<char>, Option<JsonV>)> = seq![
        ("id"@, Some(JsonV::Int(result.id as int))),
        ("baseExpression"@, Some(enc_expr(result.base_expression))),
        ("indexExpression"@, Some(opt_expr_of(result.index_expression))),
        ("src"@, Some(JsonV::Str(spec_encode_location(result.src)))),
        ("typeDescriptions"@, Some(JsonV::Obj(enc_type_descriptions(result.type_descriptions)))),
    ];
    proof {
        assert forall|j: int| 0 <= j < fs.len() implies (#[trigger] outs[j]).0 == fs[j].0
            && canon_field(psv, fs[j].0, fs[j].1) == Ok::<Option<JsonV>, ErrV>(outs[j].1) by {}
        lemma_canon_fields_ok(psv, fs, outs, 0);
        assert(cat_opts(outs, 0) =~= enc_index_access(result)) by {
            reveal_with_fuel(cat_opts, 7);
        }
    }
    Ok(result)
}

/// Decodes a literal record from the members of an object.
#[verifier::rlimit(80)]
pub fn decode_literal(ps: &Vec<(String, JsonValue)>) -> (r: Result<Literal, DecodeError>)
    ensures
        match r {
            Ok(x) => canon_fields(jv_pairs(ps@), schema(RecId::RLiteral), 0) == Ok::<
                Seq<(Seq<char>, JsonV)>,
                ErrV,
            >(enc_literal(x)),
            Err(e) => canon_fields(jv_pairs(ps@), schema(RecId::RLiteral), 0) == Err::<
                Seq<(Seq<char>, JsonV)>,
                ErrV,
            >(e.model()),
        },
{
    let ghost psv = jv_pairs(ps@);
    let ghost fs = schema(RecId::RLiteral);
    let id = match g_i64(ps, "id") {
        Ok(x) => x,
        Err(e) => {
            proof {
                lemma_canon_fields_first_err(psv, fs, 0, 0, e.model());
            }
            return Err(e);
        },
    };
    let kind = match crate::ast::dec_leaf::g_enum_lit(ps, "kind") {
        Ok(x) => x,
        Err(e) => {
            proof {
                assert forall|m: int| 0 <= m < 1 implies canon_field(
                    psv,
                    (#[trigger] fs[m]).0,
                    fs[m].1,
                ) is Ok by {}
                lemma_canon_fields_first_err(psv, fs, 0, 1, e.model());
            }
            return Err(e);
        },
    };
    let value = match g_str(ps, "value") {
        Ok(x) => x,
        Err(e) => {
            proof {
                assert forall|m: int| 0 <= m < 2 implies canon_field(
                    psv,
                    (#[trigger] fs[m]).0,
                    fs[m].1,
                ) is Ok by {}
                lemma_canon_fields_first_err(psv, fs, 0, 2, e.model());
            }
            return Err(e);
        },
    };
    let hex_value = match g_opt_str(ps, "hexValue") {
        Ok(x) => x,
        Err(e) => {
            proof {
                assert forall|m: int| 0 <= m < 3 implies canon_field(
                    psv,
                    (#[trigger] fs[m]).0,
                    fs[m].1,
                ) is Ok by {}
                lemma_canon_fields_first_err(psv, fs, 0, 3, e.model());
            }
            return Err(e);
        },
    };
    let subdenomination = match g_opt_str(ps, "subdenomination") {
        Ok(x) => x,
        Err(e) => {
            proof {
                assert forall|m: int| 0 <= m < 4 implies canon_field(
                    psv,
                    (#[trigger] fs[m]).0,
                    fs[m].1,
                ) is Ok by {}
                lemma_canon_fields_first_err(psv, fs, 0, 4, e.model());
            }
            return Err(e);
        },
    };
    let src = match g_src(ps, "src") {
        Ok(x) => x,
        Err(e) => {
            proof {
                assert forall|m: int| 0 <= m < 5 implies canon_field(
                    psv,
                    (#[trigger] fs[m]).0,
                    fs[m].1,
                ) is Ok by {}
                lemma_canon_fields_first_err(psv, fs, 0, 5, e.model());
            }
            return Err(e);
        },
    };
    let type_descriptions = match crate::ast::dec_leaf::g_c_type_descriptions(ps, "typeDescriptions") {
        Ok(x) => x,
        Err(e) => {
            proof {
                assert forall|m: int| 0 <= m < 6 implies canon_field(
                    psv,
                    (#[trigger] fs[m]).0,
                    fs[m].1,
                ) is Ok by {}
                lemma_canon_fields_first_err(psv, fs, 0, 6, e.model());
            }
            return Err(e);
        },
    };
    let is_constant = match g_bool(ps, "isConstant") {
        Ok(x) => x,
        Err(e) => {
            proof {
                assert forall|m: int| 0 <= m < 7 implies canon_field(
                    psv,
                    (#[trigger] fs[m]).0,
                    fs[m].1,
                ) is Ok by {}
                lemma_canon_fields_first_err(psv, fs, 0, 7, e.model());
            }
            return Err(e);
        },
    };
    let is_l_value = match g_bool(ps, "isLValue") {
        Ok(x) => x,
        Err(e) => {
            proof {
                assert forall|m: int| 0 <= m < 8 implies canon_field(
                    psv,
                    (#[trigger] fs[m]).0,
                    fs[m].1,
                ) is Ok by {}
                lemma_canon_fields_first_err(psv, fs, 0, 8, e.model());
            }
            return Err(e);
        },
    };
    let is_pure = match g_bool(ps, "isPure") {
        Ok(x) => x,
        Err(e) => {
            proof {
                assert forall|m: int| 0 <= m < 9 implies canon_field(
                    psv,
                    (#[trigger] fs[m]).0,
                    fs[m].1,
                ) is Ok by {}
                lemma_canon_fields_first_err(psv, fs, 0, 9, e.model());
            }
            return Err(e);
        },
    };
    let l_value_requested = match g_bool(ps, "lValueRequested") {
        Ok(x) => x,
        Err(e) => {
            proof {
                assert forall|m: int| 0 <= m < 10 implies canon_field(
                    psv,
                    (#[trigger] fs[m]).0,
                    fs[m].1,
                ) is Ok by {}
                lemma_canon_fields_first_err(psv, fs, 0, 10, e.model());
            }
            return Err(e);
        },
    };
    let formatted_value = match g_opt_str(ps, "formattedValue") {
        Ok(x) => x,
        Err(e) => {
            proof {
                assert forall|m: int| 0 <= m < 11 implies canon_field(
                    psv,
                    (#[trigger] fs[m]).0,
                    fs[m].1,
                ) is Ok by {}
                lemma_canon_fields_first_err(psv, fs, 0, 11, e.model());
            }
            return Err(e);
        },
    };
    let result = Literal { id, kind, value, hex_value, subdenomination, src, type_descriptions, is_constant, is_l_value, is_pure, l_value_requested, formatted_value };
    let ghost outs: Seq<(Seq<char>, Option<JsonV>)> = seq![
        ("id"@, Some(JsonV::Int(result.id as int))),
        ("kind"@, Some(JsonV::Str(spell_lit(result.kind)))),
        ("value"@, Some(JsonV::Str(result.value@))),
        ("hexValue"@, Some(opt_str_of(result.hex_value))),
        ("subdenomination"@, Some(opt_str_of(result.subdenomination))),
        ("src"@, Some(JsonV::Str(spec_encode_location(result.src)))),
        ("typeDescriptions"@, Some(JsonV::Obj(enc_type_descriptions(result.type_descriptions)))),
        ("isConstant"@, Some(JsonV::Bool(result.is_constant))),
        ("isLValue"@, Some(JsonV::Bool(result.is_l_value))),
        ("isPure"@, Some(JsonV::Bool(result.is_pure))),
        ("lValueRequested"@, Some(JsonV::Bool(result.l_value_requested))),
        ("formattedValue"@, Some(opt_str_of(result.formatted_value))),
    ];
    proof {
        assert forall|j: int| 0 <= j < fs.len() implies (#[trigger] outs[j]).0 == fs[j].0
            && canon_field(psv, fs[j].0, fs[j].1) == Ok::<Option<JsonV>, ErrV>(outs[j].1) by {}
        lemma_canon_fields_ok(psv, fs, outs, 0);
        assert(cat_opts(outs, 0) =~= enc_literal(result)) by {
            reveal_with_fuel(cat_opts, 14);
        }
    }
    Ok(result)
}

/// Decodes a memberAccess record from the members of an object.
#[verifier::rlimit(80)]
pub fn decode_member_access(ps: &Vec<(String, JsonValue)>) -> (r: Result<MemberAccess, DecodeError>)
    ensures
        match r {
            Ok(x) => canon_fields(jv_pairs(ps@), schema(RecId::RMemberAccess), 0) == Ok::<
                Seq<(Seq<char>, JsonV)>,
                ErrV,
            >(enc_member_access(x)),
            Err(e) => canon_fields(jv_pairs(ps@), schema(RecId::RMemberAccess), 0) == Err::<
                Seq<(Seq<char>, JsonV)>,
                ErrV,
            >(e.model()),
        },
    decreases jv_pairs(ps@), 5int, 0int,
{
    let ghost psv = jv_pairs(ps@);
    let ghost fs = schema(RecId::RMemberAccess);
    let id = match g_i64(ps, "id") {
        Ok(x) => x,
        Err(e) => {
            proof {
                lemma_canon_fields_first_err(psv, fs, 0, 0, e.model());
            }
            return Err(e);
        },
    };
    let expression = match g_c_expr(ps, "expression") {
        Ok(x) => x,
        Err(e) => {
            proof {
                assert forall|m: int| 0 <= m < 1 implies canon_field(
                    psv,
                    (#[trigger] fs[m]).0,
                    fs[m].1,
                ) is Ok by {}
                lemma_canon_fields_first_err(psv, fs, 0, 1, e.model());
            }
            return Err(e);
        },
    };
    let member_name = match g_str(ps, "memberName") {
        Ok(x) => x,
        Err(e) => {
            proof {
                assert forall|m: int| 0 <= m < 2 implies canon_field(
                    psv,
                    (#[trigger] fs[m]).0,
                    fs[m].1,
                ) is Ok by {}
                lemma_canon_fields_first_err(psv, fs, 0, 2, e.model());
            }
            return Err(e);
        },
    };
    let member_location = match g_opt_str(ps, "memberLocation") {
        Ok(x) => x,
        Err(e) => {
            proof {
                assert forall|m: int| 0 <= m < 3 implies canon_field(
                    psv,
                    (#[trigger] fs[m]).0,
                    fs[m].1,
                ) is Ok by {}
                lemma_canon_fields_first_err(psv, fs, 0, 3, e.model());
            }
            return Err(e);
        },
    };
    let src = match g_src(ps, "src") {
        Ok(x) => x,
        Err(e) => {
            proof {
                assert forall|m: int| 0 <= m < 4 implies canon_field(
                    psv,
                    (#[trigger] fs[m]).0,
                    fs[m].1,
                ) is Ok by {}
                lemma_canon_fields_first_err(psv, fs, 0, 4, e.model());
            }
            return Err(e);
        },
    };
    let referenced_declaration = match g_opt_i64(ps, "referencedDeclaration") {
        Ok(x) => x,
        Err(e) => {
            proof {
                assert forall|m: int| 0 <= m < 5 implies canon_field(
                    psv,
                    (#[trigger] fs[m]).0,
                    fs[m].1,
                ) is Ok by {}
                lemma_canon_fields_first_err(psv, fs, 0, 5, e.model());
            }
            return Err(e);
        },
    };
    let type_descriptions = match crate::ast::dec_leaf::g_c_type_descriptions(ps, "typeDescriptions") {
        Ok(x) => x,
        Err(e) => {
            proof {
                assert forall|m: int| 0 <= m < 6 implies canon_field(
                    psv,
                    (#[trigger] fs[m]).0,
                    fs[m].1,
                ) is Ok by {}
                lemma_canon_fields_first_err(psv, fs, 0, 6, e.model());
            }
            return Err(e);
        },
    };
    let argument_types = match crate::ast::dec_leaf::g_oac_type_descriptions(ps, "argumentTypes") {
        Ok(x) => x,
        Err(e) => {
            proof {
                assert forall|m: int| 0 <= m < 7 implies canon_field(
                    psv,
                    (#[trigger] fs[m]).0,
                    fs[m].1,
                ) is Ok by {}
                lemma_canon_fields_first_err(psv, fs, 0, 7, e.model());
            }
            return Err(e);
        },
    };
    let is_constant = match g_bool(ps, "isConstant") {
        Ok(x) => x,
        Err(e) => {
            proof {
                assert forall|m: int| 0 <= m < 8 implies canon_field(
                    psv,
                    (#[trigger] fs[m]).0,
                    fs[m].1,
                ) is Ok by {}
                lemma_canon_fields_first_err(psv, fs, 0, 8, e.model());
            }
            return Err(e);
        },
    };
    let is_l_value = match g_bool(ps, "isLValue") {
        Ok(x) => x,
        Err(e) => {
            proof {
                assert forall|m: int| 0 <= m < 9 implies canon_field(
                    psv,
                    (#[trigger] fs[m]).0,
                    fs[m].1,
                ) is Ok by {}
                lemma_canon_fields_first_err(psv, fs, 0, 9, e.model());
            }
            return Err(e);
        },
    };
    let is_pure = match g_bool(ps, "isPure") {
        Ok(x) => x,
        Err(e) => {
            proof {
                assert forall|m: int| 0 <= m < 10 implies canon_field(
                    psv,
                    (#[trigger] fs[m]).0,
                    fs[m].1,
                ) is Ok by {}
                lemma_canon_fields_first_err(psv, fs, 0, 10, e.model());
            }
            return Err(e);
        },
    };
    let l_value_requested = match g_bool(ps, "lValueRequested") {
        Ok(x) => x,
        Err(e) => {
            proof {
                assert forall|m: int| 0 <= m < 11 implies canon_field(
                    psv,
                    (#[trigger] fs[m]).0,
                    fs[m].1,
                ) is Ok by {}
                lemma_canon_fields_first_err(psv, fs, 0, 11, e.model());
            }
            return Err(e);
        },
    };
    let result = MemberAccess { id, expression, member_name, member_location, src, referenced_declaration, type_descriptions, argument_types, is_constant, is_l_value, is_pure, l_value_requested };
    let ghost outs: Seq<(Seq<char>, Option<JsonV>)> = seq![
        ("id"@, Some(JsonV::Int(result.id as int))),
        ("expression"@, Some(enc_expr(result.expression))),
        ("memberName"@, Some(JsonV::Str(result.member_name@))),
        ("memberLocation"@, Some(opt_str_of(result.member_location))),
        ("src"@, Some(JsonV::Str(spec_encode_location(result.src)))),
        ("referencedDeclaration"@, Some(opt_int_of(result.referenced_declaration))),
        ("typeDescriptions"@, Some(JsonV::Obj(enc_type_descriptions(result.type_descriptions)))),
        ("argumentTypes"@, Some(opt_arr_type_descriptions_of(result.argument_types))),
        ("isConstant"@, Some(JsonV::Bool(result.is_constant))),
        ("isLValue"@, Some(JsonV::Bool(result.is_l_value))),
        ("isPure"@, Some(JsonV::Bool(result.is_pure))),
        ("lValueRequested"@, Some(JsonV::Bool(result.l_value_requested))),
    ];
    proof {
        assert forall|j: int| 0 <= j < fs.len() implies (#[trigger] outs[j]).0 == fs[j].0
            && canon_field(psv, fs[j].0, fs[j].1) == Ok::<Option<JsonV>, ErrV>(outs[j].1) by {}
        lemma_canon_fields_ok(psv, fs, outs, 0);
        assert(cat_opts(outs, 0) =~= enc_member_access(result)) by {
            reveal_with_fuel(cat_opts, 14);
        }
    }
    Ok(result)
}

/// Decodes a newExpression record from the members of an object.
#[verifier::rlimit(80)]
pub fn decode_new_expression(ps: &Vec<(String, JsonValue)>) -> (r: Result<NewExpression, DecodeError>)
    ensures
        match r {
            Ok(x) => canon_fields(jv_pairs(ps@), schema(RecId::RNewExpression), 0) == Ok::<
                Seq<(Seq<char>, JsonV)>,
                ErrV,
            >(enc_new_expression(x)),
            Err(e) => canon_fields(jv_pairs(ps@), schema(RecId::RNewExpression), 0) == Err::<
                Seq<(Seq<char>, JsonV)>,
                ErrV,
            >(e.model()),
        },
    decreases jv_pairs(ps@), 5int, 0int,
{
    let ghost psv = jv_pairs(ps@);
    let ghost fs = schema(RecId::RNewExpression);
    let id = match g_i64(ps, "id") {
        Ok(x) => x,
        Err(e) => {
            proof {
                lemma_canon_fields_first_err(psv, fs, 0, 0, e.model());
            }
            return Err(e);
        },
    };
    let typename = match crate::ast::dec_type::g_c_type_name(ps, "typeName") {
        Ok(x) => x,
        Err(e) => {
            proof {
                assert forall|m: int| 0 <= m < 1 implies canon_field(
                    psv,
                    (#[trigger] fs[m]).0,
                    fs[m].1,
                ) is Ok by {}
                lemma_canon_fields_first_err(psv, fs, 0, 1, e.model());
            }
            return Err(e);
        },
    };
    let arguments = match g_oac_expr(ps, "arguments") {
        Ok(x) => x,
        Err(e) => {
            proof {
                assert forall|m: int| 0 <= m < 2 implies canon_field(
                    psv,
                    (#[trigger] fs[m]).0,
                    fs[m].1,
                ) is Ok by {}
                lemma_canon_fields_first_err(psv, fs, 0, 2, e.model());
            }
            return Err(e);
        },
    };
    let src = match g_src(ps, "src") {
        Ok(x) => x,
        Err(e) => {
            proof {
                assert forall|m: int| 0 <= m < 3 implies canon_field(
                    psv,
                    (#[trigger] fs[m]).0,
                    fs[m].1,
                ) is Ok by {}
                lemma_canon_fields_first_err(psv, fs, 0, 3, e.model());
            }
            return Err(e);
        },
    };
    let type_descriptions = match crate::ast::dec_leaf::g_c_type_descriptions(ps, "typeDescriptions") {
        Ok(x) => x,
        Err(e) => {
            proof {
                assert forall|m: int| 0 <= m < 4 implies canon_field(
                    psv,
                    (#[trigger] fs[m]).0,
                    fs[m].1,
                ) is Ok by {}
                lemma_canon_fields_first_err(psv, fs, 0, 4, e.model());
            }
            return Err(e);
        },
    };
    let argument_types = match crate::ast::dec_leaf::g_oac_type_descriptions(ps, "argumentTypes") {
        Ok(x) => x,
        Err(e) => {
            proof {
                assert forall|m: int| 0 <= m < 5 implies canon_field(
                    psv,
                    (#[trigger] fs[m]).0,
                    fs[m].1,
                ) is Ok by {}
                lemma_canon_fields_first_err(psv, fs, 0, 5, e.model());
            }
            return Err(e);
        },
    };
    let is_constant = match g_bool(ps, "isConstant") {
        Ok(x) => x,
        Err(e) => {
            proof {
                assert forall|m: int| 0 <= m < 6 implies canon_field(
                    psv,
                    (#[trigger] fs[m]).0,
                    fs[m].1,
                ) is Ok by {}
                lemma_canon_fields_first_err(psv, fs, 0, 6, e.model());
            }
            return Err(e);
        },
    };
    let is_l_value = match g_bool(ps, "isLValue") {
        Ok(x) => x,
        Err(e) => {
            proof {
                assert forall|m: int| 0 <= m < 7 implies canon_field(
                    psv,
                    (#[trigger] fs[m]).0,
                    fs[m].1,
                ) is Ok by {}
                lemma_canon_fields_first_err(psv, fs, 0, 7, e.model());
            }
            return Err(e);
        },
    };
    let is_pure = match g_bool(ps, "isPure") {
        Ok(x) => x,
        Err(e) => {
            proof {
                assert forall|m: int| 0 <= m < 8 implies canon_field(
                    psv,
                    (#[trigger] fs[m]).0,
                    fs[m].1,
                ) is Ok by {}
                lemma_canon_fields_first_err(psv, fs, 0, 8, e.model());
            }
            return Err(e);
        },
    };
    let l_value_requested = match g_bool(ps, "lValueRequested") {
        Ok(x) => x,
        Err(e) => {
            proof {
                assert forall|m: int| 0 <= m < 9 implies canon_field(
                    psv,
                    (#[trigger] fs[m]).0,
                    fs[m].1,
                ) is Ok by {}
                lemma_canon_fields_first_err(psv, fs, 0, 9, e.model());
            }
            return Err(e);
        },
    };
    let result = NewExpression { id, typename, arguments, src, type_descriptions, argument_types, is_constant, is_l_value, is_pure, l_value_requested };
    let ghost outs: Seq<(Seq<char>, Option<JsonV>)> = seq![
        ("id"@, Some(JsonV::Int(result.id as int))),
        ("typeName"@, Some(enc_type_name(result.typename))),
        ("arguments"@, Some(opt_arr_expr_of(result.arguments))),
        ("src"@, Some(JsonV::Str(spec_encode_location(result.src)))),
        ("typeDescriptions"@, Some(JsonV::Obj(enc_type_descriptions(result.type_descriptions)))),
        ("argumentTypes"@, Some(opt_arr_type_descriptions_of(result.argument_types))),
        ("isConstant"@, Some(JsonV::Bool(result.is_constant))),
        ("isLValue"@, Some(JsonV::Bool(result.is_l_value))),
        ("isPure"@, Some(JsonV::Bool(result.is_pure))),
        ("lValueRequested"@, Some(JsonV::Bool(result.l_value_requested))),
    ];
    proof {
        assert forall|j: int| 0 <= j < fs.len() implies (#[trigger] outs[j]).0 == fs[j].0
            && canon_field(psv, fs[j].0, fs[j].1) == Ok::<Option<JsonV>, ErrV>(outs[j].1) by {}
        lemma_canon_fields_ok(psv, fs, outs, 0);
        assert(cat_opts(outs, 0) =~= enc_new_expression(result)) by {
            reveal_with_fuel(cat_opts, 12);
        }
    }
    Ok(result)
}

/// Decodes a tupleExpression record from the members of an object.
pub fn decode_tuple_expression(ps: &Vec<(String, JsonValue)>) -> (r: Result<TupleExpression, DecodeError>)
    ensures
        match r {
            Ok(x) => canon_fields(jv_pairs(ps@), schema(RecId::RTupleExpression), 0) == Ok::<
                Seq<(Seq<char>, JsonV)>,
                ErrV,
            >(enc_tuple_expression(x)),
            Err(e) => canon_fields(jv_pairs(ps@), schema(RecId::RTupleExpression), 0) == Err::<
                Seq<(Seq<char>, JsonV)>,
                ErrV,
            >(e.model()),
        },
    decreases jv_pairs(ps@), 5int, 0int,
{
    let ghost psv = jv_pairs(ps@);
    let ghost fs = schema(RecId::RTupleExpression);
    let id = match g_i64(ps, "id") {
        Ok(x) => x,
        Err(e) => {
            proof {
                lemma_canon_fields_first_err(psv, fs, 0, 0, e.model());
            }
            return Err(e);
        },
    };
    let components = match g_aoc_expr(ps, "components") {
        Ok(x) => x,
        Err(e) => {
            proof {
                assert forall|m: int| 0 <= m < 1 implies canon_field(
                    psv,
                    (#[trigger] fs[m]).0,
                    fs[m].1,
                ) is Ok by {}
                lemma_canon_fields_first_err(psv, fs, 0, 1, e.model());
            }
            return Err(e);
        },
    };
    let src = match g_src(ps, "src") {
        Ok(x) => x,
        Err(e) => {
            proof {
                assert forall|m: int| 0 <= m < 2 implies canon_field(
                    psv,
                    (#[trigger] fs[m]).0,
                    fs[m].1,
                ) is Ok by {}
                lemma_canon_fields_first_err(psv, fs, 0, 2, e.model());
            }
            return Err(e);
        },
    };
    let type_descriptions = match crate::ast::dec_leaf::g_c_type_descriptions(ps, "typeDescriptions") {
        Ok(x) => x,
        Err(e) => {
            proof {
                assert forall|m: int| 0 <= m < 3 implies canon_field(
                    psv,
                    (#[trigger] fs[m]).0,
                    fs[m].1,
                ) is Ok by {}
                lemma_canon_fields_first_err(psv, fs, 0, 3, e.model());
            }
            return Err(e);
        },
    };
    let result = TupleExpression { id, components, src, type_descriptions };
    let ghost outs: Seq<(Seq<char>, Option<JsonV>)> = seq![
        ("id"@, Some(JsonV::Int(result.id as int))),
        ("components"@, Some(JsonV::Arr(seq_opt_expr_of(result.components@)))),
        ("src"@, Some(JsonV::Str(spec_encode_location(result.src)))),
        ("typeDescriptions"@, Some(JsonV::Obj(enc_type_descriptions(result.type_descriptions)))),
    ];
    proof {
        assert forall|j: int| 0 <= j < fs.len() implies (#[trigger] outs[j]).0 == fs[j].0
            && canon_field(psv, fs[j].0, fs[j].1) == Ok::<Option<JsonV>, ErrV>(outs[j].1) by {}
        lemma_canon_fields_ok(psv, fs, outs, 0);
        assert(cat_opts(outs, 0) =~= enc_tuple_expression(result)) by {
            reveal_with_fuel(cat_opts, 6);
        }
    }
    Ok(result)
}

/// Decodes a unaryOperation record from the members of an object.
#[verifier::rlimit(80)]
pub fn decode_unary_operation(ps: &Vec<(String, JsonValue)>) -> (r: Result<UnaryOperation, DecodeError>)
    ensures
        match r {
            Ok(x) => canon_fields(jv_pairs(ps@), schema(RecId::RUnaryOperation), 0) == Ok::<
                Seq<(Seq<char>, JsonV)>,
                ErrV,
            >(enc_unary_operation(x)),
            Err(e) => canon_fields(jv_pairs(ps@), schema(RecId::RUnaryOperation), 0) == Err::<
                Seq<(Seq<char>, JsonV)>,
                ErrV,
            >(e.model()),
        },
    decreases jv_pairs(ps@), 5int, 0int,
{
    let ghost psv = jv_pairs(ps@);
    let ghost fs = schema(RecId::RUnaryOperation);
    let id = match g_i64(ps, "id") {
        Ok(x) => x,
        Err(e) => {
            proof {
                lemma_canon_fields_first_err(psv, fs, 0, 0, e.model());
            }
            return Err(e);
        },
    };
    let sub_expression = match g_c_expr(ps, "subExpression") {
        Ok(x) => x,
        Err(e) => {
            proof {
                assert forall|m: int| 0 <= m < 1 implies canon_field(
                    psv,
                    (#[trigger] fs[m]).0,
                    fs[m].1,
                ) is Ok by {}
                lemma_canon_fields_first_err(psv, fs, 0, 1, e.model());
            }
            return Err(e);
        },
    };
    let operator = match g_str(ps, "operator") {
        Ok(x) => x,
        Err(e) => {
            proof {
                assert forall|m: int| 0 <= m < 2 implies canon_field(
                    psv,
                    (#[trigger] fs[m]).0,
                    fs[m].1,
                ) is Ok by {}
                lemma_canon_fields_first_err(psv, fs, 0, 2, e.model());
            }
            return Err(e);
        },
    };
    let is_prefix = match g_bool_prefix_alias(ps, "isPrefix") {
        Ok(x) => x,
        Err(e) => {
            proof {
                assert forall|m: int| 0 <= m < 3 implies canon_field(
                    psv,
                    (#[trigger] fs[m]).0,
                    fs[m].1,
                ) is Ok by {}
                lemma_canon_fields_first_err(psv, fs, 0, 3, e.model());
            }
            return Err(e);
        },
    };
    let src = match g_src(ps, "src") {
        Ok(x) => x,
        Err(e) => {
            proof {
                assert forall|m: int| 0 <= m < 4 implies canon_field(
                    psv,
                    (#[trigger] fs[m]).0,
                    fs[m].1,
                ) is Ok by {}
                lemma_canon_fields_first_err(psv, fs, 0, 4, e.model());
            }
            return Err(e);
        },
    };
    let type_descriptions = match crate::ast::dec_leaf::g_c_type_descriptions(ps, "typeDescriptions") {
        Ok(x) => x,
        Err(e) => {
            proof {
                assert forall|m: int| 0 <= m < 5 implies canon_field(
                    psv,
                    (#[trigger] fs[m]).0,
                    fs[m].1,
                ) is Ok by {}
                lemma_canon_fields_first_err(psv, fs, 0, 5, e.model());
            }
            return Err(e);
        },
    };
    let is_constant = match g_bool(ps, "isConstant") {
        Ok(x) => x,
        Err(e) => {
            proof {
                assert forall|m: int| 0 <= m < 6 implies canon_field(
                    psv,
                    (#[trigger] fs[m]).0,
                    fs[m].1,
                ) is Ok by {}
                lemma_canon_fields_first_err(psv, fs, 0, 6, e.model());
            }
            return Err(e);
        },
    };
    let is_l_value = match g_bool(ps, "isLValue") {
        Ok(x) => x,
        Err(e) => {
            proof {
                assert forall|m: int| 0 <= m < 7 implies canon_field(
                    psv,
                    (#[trigger] fs[m]).0,
                    fs[m].1,
                ) is Ok by {}
                lemma_canon_fields_first_err(psv, fs, 0, 7, e.model());
            }
            return Err(e);
        },
    };
    let is_pure = match g_bool(ps, "isPure") {
        Ok(x) => x,
        Err(e) => {
            proof {
                assert forall|m: int| 0 <= m < 8 implies canon_field(
                    psv,
                    (#[trigger] fs[m]).0,
                    fs[m].1,
                ) is Ok by {}
                lemma_canon_fields_first_err(psv, fs, 0, 8, e.model());
            }
            return Err(e);
        },
    };
    let l_value_requested = match g_bool(ps, "lValueRequested") {
        Ok(x) => x,
        Err(e) => {
            proof {
                assert forall|m: int| 0 <= m < 9 implies canon_field(
                    psv,
                    (#[trigger] fs[m]).0,
                    fs[m].1,
                ) is Ok by {}
                lemma_canon_fields_first_err(psv, fs, 0, 9, e.model());
            }
            return Err(e);
        },
    };
    let result = UnaryOperation { id, sub_expression, operator, is_prefix, src, type_descriptions, is_constant, is_l_value, is_pure, l_value_requested };
    let ghost outs: Seq<(Seq<char>, Option<JsonV>)> = seq![
        ("id"@, Some(JsonV::Int(result.id as int))),
        ("subExpression"@, Some(enc_expr(result.sub_expression))),
        ("operator"@, Some(JsonV::Str(result.operator@))),
        ("isPrefix"@, Some(JsonV::Bool(result.is_prefix))),
        ("src"@, Some(JsonV::Str(spec_encode_location(result.src)))),
        ("typeDescriptions"@, Some(JsonV::Obj(enc_type_descriptions(result.type_descriptions)))),
        ("isConstant"@, Some(JsonV::Bool(result.is_constant))),
        ("isLValue"@, Some(JsonV::Bool(result.is_l_value))),
        ("isPure"@, Some(JsonV::Bool(result.is_pure))),
        ("lValueRequested"@, Some(JsonV::Bool(result.l_value_requested))),
    ];
    proof {
        assert forall|j: int| 0 <= j < fs.len() implies (#[trigger] outs[j]).0 == fs[j].0
            && canon_field(psv, fs[j].0, fs[j].1) == Ok::<Option<JsonV>, ErrV>(outs[j].1) by {}
        lemma_canon_fields_ok(psv, fs, outs, 0);
        assert(cat_opts(outs, 0) =~= enc_unary_operation(result)) by {
            reveal_with_fuel(cat_opts, 12);
        }
    }
    Ok(result)
}

/// Decodes a functionCallOptions record from the members of an object.
pub fn decode_function_call_options(ps: &Vec<(String, JsonValue)>) -> (r: Result<FunctionCallOptions, DecodeError>)
    ensures
        match r {
            Ok(x) => canon_fields(jv_pairs(ps@), schema(RecId::RFunctionCallOptions), 0) == Ok::<
                Seq<(Seq<char>, JsonV)>,
                ErrV,
            >(enc_function_call_options(x)),
            Err(e) => canon_fields(jv_pairs(ps@), schema(RecId::RFunctionCallOptions), 0) == Err::<
                Seq<(Seq<char>, JsonV)>,
                ErrV,
            >(e.model()),
        },
    decreases jv_pairs(ps@), 5int, 0int,
{
    let ghost psv = jv_pairs(ps@);
    let ghost fs = schema(RecId::RFunctionCallOptions);
    let id = match g_i64(ps, "id") {
        Ok(x) => x,
        Err(e) => {
            proof {
                lemma_canon_fields_first_err(psv, fs, 0, 0, e.model());
            }
            return Err(e);
        },
    };
    let expression = match g_c_expr(ps, "expression") {
        Ok(x) => x,
        Err(e) => {
            proof {
                assert forall|m: int| 0 <= m < 1 implies canon_field(
                    psv,
                    (#[trigger] fs[m]).0,
                    fs[m].1,
                ) is Ok by {}
                lemma_canon_fields_first_err(psv, fs, 0, 1, e.model());
            }
            return Err(e);
        },
    };
    let names = match crate::ast::dec_leaf::g_arr_str(ps, "names") {
        Ok(x) => x,
        Err(e) => {
            proof {
                assert forall|m: int| 0 <= m < 2 implies canon_field(
                    psv,
                    (#[trigger] fs[m]).0,
                    fs[m].1,
                ) is Ok by {}
                lemma_canon_fields_first_err(psv, fs, 0, 2, e.model());
            }
            return Err(e);
        },
    };
    let options = match g_ac_expr(ps, "options") {
        Ok(x) => x,
        Err(e) => {
            proof {
                assert forall|m: int| 0 <= m < 3 implies canon_field(
                    psv,
                    (#[trigger] fs[m]).0,
                    fs[m].1,
                ) is Ok by {}
                lemma_canon_fields_first_err(psv, fs, 0, 3, e.model());
            }
            return Err(e);
        },
    };
    let src = match g_src(ps, "src") {
        Ok(x) => x,
        Err(e) => {
            proof {
                assert forall|m: int| 0 <= m < 4 implies canon_field(
                    psv,
                    (#[trigger] fs[m]).0,
                    fs[m].1,
                ) is Ok by {}
                lemma_canon_fields_first_err(psv, fs, 0, 4, e.model());
            }
            return Err(e);
        },
    };
    let type_descriptions = match crate::ast::dec_leaf::g_c_type_descriptions(ps, "typeDescriptions") {
        Ok(x) => x,
        Err(e) => {
            proof {
                assert forall|m: int| 0 <= m < 5 implies canon_field(
                    psv,
                    (#[trigger] fs[m]).0,
                    fs[m].1,
                ) is Ok by {}
                lemma_canon_fields_first_err(psv, fs, 0, 5, e.model());
            }
            return Err(e);
        },
    };
    let name_locations = match crate::ast::dec_leaf::g_opt_arr_str(ps, "nameLocations") {
        Ok(x) => x,
        Err(e) => {
            proof {
                assert forall|m: int| 0 <= m < 6 implies canon_field(
                    psv,
                    (#[trigger] fs[m]).0,
                    fs[m].1,
                ) is Ok by {}
                lemma_canon_fields_first_err(psv, fs, 0, 6, e.model());
            }
            return Err(e);
        },
    };
    let result = FunctionCallOptions { id, expression, names, options, src, type_descriptions, name_locations };
    let ghost outs: Seq<(Seq<char>, Option<JsonV>)> = seq![
        ("id"@, Some(JsonV::Int(result.id as int))),
        ("expression"@, Some(enc_expr(result.expression))),
        ("names"@, Some(JsonV::Arr(strs_of(result.names@)))),
        ("options"@, Some(JsonV::Arr(seq_expr_of(result.options@)))),
        ("src"@, Some(JsonV::Str(spec_encode_location(result.src)))),
        ("typeDescriptions"@, Some(JsonV::Obj(enc_type_descriptions(result.type_descriptions)))),
        ("nameLocations"@, Some(opt_strs_of(result.name_locations))),
    ];
    proof {
        assert forall|j: int| 0 <= j < fs.len() implies (#[trigger] outs[j]).0 == fs[j].0
            && canon_field(psv, fs[j].0, fs[j].1) == Ok::<Option<JsonV>, ErrV>(outs[j].1) by {}
        lemma_canon_fields_ok(psv, fs, outs, 0);
        assert(cat_opts(outs, 0) =~= enc_function_call_options(result)) by {
            reveal_with_fuel(cat_opts, 9);
        }
    }
    Ok(result)
}

/// Decodes a expression node: the discriminator selects the record; an
/// unrecognized discriminator is reported as such, distinct from a
/// malformed known kind.
pub fn decode_expression(v: &JsonValue) -> (r: Result<Expression, DecodeError>)
    ensures
        match r {
            Ok(x) => canon_node(jv(*v), Fam::Expr) == Ok::<JsonV, ErrV>(enc_expr(x)),
            Err(e) => canon_node(jv(*v), Fam::Expr) == Err::<JsonV, ErrV>(e.model()),
        },
    decreases jv(*v), 5int, 1int,
{
    let ps = match v {
        JsonValue::Obj(ps) => ps,
        _ => {
            return Err(DecodeError::NotAnObject);
        },
    };
    proof {
        assert(jv(*v) == JsonV::Obj(jv_pairs(ps@)));
    }
    let tag = match obj_get(ps, "nodeType") {
        None => {
            return Err(DecodeError::Missing("nodeType".to_owned()));
        },
        Some(tv) => match tv {
            JsonValue::Str(s) => s,
            _ => {
                return Err(DecodeError::Invalid("nodeType".to_owned()));
            },
        },
    };
    if str_eq(tag.as_str(), "Assignment") {
        match decode_assignment(ps) {
            Ok(x) => {
                proof {
                    assert(canon_node(jv(*v), Fam::Expr) matches Ok(c) && c =~~= enc_expr(
                        Expression::Assignment(Box::new(x)),
                    ));
                }
                Ok(Expression::Assignment(Box::new(x)))
            },
            Err(e) => Err(e),
        }
    } else if str_eq(tag.as_str(), "BinaryOperation") {
        match decode_binary_operation(ps) {
            Ok(x) => {
                proof {
                    assert(canon_node(jv(*v), Fam::Expr) matches Ok(c) && c =~~= enc_expr(
                        Expression::BinaryOperation(Box::new(x)),
                    ));
                }
                Ok(Expression::BinaryOperation(Box::new(x)))
            },
            Err(e) => Err(e),
        }
    } else if str_eq(tag.as_str(), "Conditional") {
        match decode_conditional(ps) {
            Ok(x) => {
                proof {
                    assert(canon_node(jv(*v), Fam::Expr) matches Ok(c) && c =~~= enc_expr(
                        Expression::Conditional(Box::new(x)),
                    ));
                }
                Ok(Expression::Conditional(Box::new(x)))
            },
            Err(e) => Err(e),
        }
    } else if str_eq(tag.as_str(), "ElementaryTypeNameExpression") {
        match decode_elementary_type_name_expression(ps) {
            Ok(x) => {
                proof {
                    assert(canon_node(jv(*v), Fam::Expr) matches Ok(c) && c =~~= enc_expr(
                        Expression::ElementaryTypeNameExpression(Box::new(x)),
                    ));
                }
                Ok(Expression::ElementaryTypeNameExpression(Box::new(x)))
            },
            Err(e) => Err(e),
        }
    } else if str_eq(tag.as_str(), "FunctionCall") {
        match decode_function_call(ps) {
            Ok(x) => {
                proof {
                    assert(canon_node(jv(*v), Fam::Expr) matches Ok(c) && c =~~= enc_expr(
                        Expression::FunctionCall(Box::new(x)),
                    ));
                }
                Ok(Expression::FunctionCall(Box::new(x)))
            },
            Err(e) => Err(e),
        }
    } else if str_eq(tag.as_str(), "Identifier") {
        match crate::ast::dec_leaf::decode_identifier(ps) {
            Ok(x) => Ok(Expression::Identifier(Box::new(x))),
            Err(e) => Err(e),
        }
    } else if str_eq(tag.as_str(), "IndexAccess") {
        match decode_index_access(ps) {
            Ok(x) => {
                proof {
                    assert(canon_node(jv(*v), Fam::Expr) matches Ok(c) && c =~~= enc_expr(
                        Expression::IndexAccess(Box::new(x)),
                    ));
                }
                Ok(Expression::IndexAccess(Box::new(x)))
            },
            Err(e) => Err(e),
        }
    } else if str_eq(tag.as_str(), "Literal") {
        match decode_literal(ps) {
            Ok(x) => {
                proof {
                    assert(canon_node(jv(*v), Fam::Expr) matches Ok(c) && c =~~= enc_expr(
                        Expression::Literal(Box::new(x)),
                    ));
                }
                Ok(Expression::Literal(Box::new(x)))
            },
            Err(e) => Err(e),
        }
    } else if str_eq(tag.as_str(), "MemberAccess") {
        match decode_member_access(ps) {
            Ok(x) => {
                proof {
                    assert(canon_node(jv(*v), Fam::Expr) matches Ok(c) && c =~~= enc_expr(
                        Expression::MemberAccess(Box::new(x)),
                    ));
                }
                Ok(Expression::MemberAccess(Box::new(x)))
            },
            Err(e) => Err(e),
        }
    } else if str_eq(tag.as_str(), "NewExpression") {
        match decode_new_expression(ps) {
            Ok(x) => {
                proof {
                    assert(canon_node(jv(*v), Fam::Expr) matches Ok(c) && c =~~= enc_expr(
                        Expression::NewExpression(Box::new(x)),
                    ));
                }
                Ok(Expression::NewExpression(Box::new(x)))
            },
            Err(e) => Err(e),
        }
    } else if str_eq(tag.as_str(), "TupleExpression") {
        match decode_tuple_expression(ps) {
            Ok(x) => {
                proof {
                    assert(canon_node(jv(*v), Fam::Expr) matches Ok(c) && c =~~= enc_expr(
                        Expression::TupleExpression(Box::new(x)),
                    ));
                }
                Ok(Expression::TupleExpression(Box::new(x)))
            },
            Err(e) => Err(e),
        }
    } else if str_eq(tag.as_str(), "UnaryOperation") {
        match decode_unary_operation(ps) {
            Ok(x) => {
                proof {
                    assert(canon_node(jv(*v), Fam::Expr) matches Ok(c) && c =~~= enc_expr(
                        Expression::UnaryOperation(Box::new(x)),
                    ));
                }
                Ok(Expression::UnaryOperation(Box::new(x)))
            },
            Err(e) => Err(e),
        }
    } else if str_eq(tag.as_str(), "VariableDeclarationStatement") {
        match crate::ast::dec_stmt::decode_variable_declaration_statement(ps) {
            Ok(x) => {
                proof {
                    assert(canon_node(jv(*v), Fam::Expr) matches Ok(c) && c =~~= enc_expr(
                        Expression::VariableDeclarationStatement(Box::new(x)),
                    ));
                }
                Ok(Expression::VariableDeclarationStatement(Box::new(x)))
            },
            Err(e) => Err(e),
        }
    } else if str_eq(tag.as_str(), "ExpressionStatement") {
        match crate::ast::dec_stmt::decode_expression_statement(ps) {
            Ok(x) => {
                proof {
                    assert(canon_node(jv(*v), Fam::Expr) matches Ok(c) && c =~~= enc_expr(
                        Expression::ExpressionStatement(Box::new(x)),
                    ));
                }
                Ok(Expression::ExpressionStatement(Box::new(x)))
            },
            Err(e) => Err(e),
        }
    } else {
        Err(DecodeError::UnknownDiscriminator(tag.clone()))
    }
}

/// Decodes a functionCallExpression node: the discriminator selects the record; an
/// unrecognized discriminator is reported as such, distinct from a
/// malformed known kind.
pub fn decode_function_call_expression(v: &JsonValue) -> (r: Result<FunctionCallExpression, DecodeError>)
    ensures
        match r {
            Ok(x) => canon_node(jv(*v), Fam::FnCallExpr) == Ok::<JsonV, ErrV>(enc_function_call_expression(x)),
            Err(e) => canon_node(jv(*v), Fam::FnCallExpr) == Err::<JsonV, ErrV>(e.model()),
        },
    decreases jv(*v), 5int, 1int,
{
    let ps = match v {
        JsonValue::Obj(ps) => ps,
        _ => {
            return Err(DecodeError::NotAnObject);
        },
    };
    proof {
        assert(jv(*v) == JsonV::Obj(jv_pairs(ps@)));
    }
    let tag = match obj_get(ps, "nodeType") {
        None => {
            return Err(DecodeError::Missing("nodeType".to_owned()));
        },
        Some(tv) => match tv {
            JsonValue::Str(s) => s,
            _ => {
                return Err(DecodeError::Invalid("nodeType".to_owned()));
            },
        },
    };
    if str_eq(tag.as_str(), "ElementaryTypeNameExpression") {
        match decode_elementary_type_name_expression(ps) {
            Ok(x) => {
                proof {
                    assert(canon_node(jv(*v), Fam::FnCallExpr) matches Ok(c) && c =~~= enc_function_call_expression(
                        FunctionCallExpression::ElementaryTypeNameExpression(Box::new(x)),
                    ));
                }
                Ok(FunctionCallExpression::ElementaryTypeNameExpression(Box::new(x)))
            },
            Err(e) => Err(e),
        }
    } else if str_eq(tag.as_str(), "FunctionCall") {
        match decode_function_call(ps) {
            Ok(x) => {
                proof {
                    assert(canon_node(jv(*v), Fam::FnCallExpr) matches Ok(c) && c =~~= enc_function_call_expression(
                        FunctionCallExpression::FunctionCall(Box::new(x)),
                    ));
                }
                Ok(FunctionCallExpression::FunctionCall(Box::new(x)))
            },
            Err(e) => Err(e),
        }
    } else if str_eq(tag.as_str(), "FunctionCallOptions") {
        match decode_function_call_options(ps) {
            Ok(x) => {
                proof {
                    assert(canon_node(jv(*v), Fam::FnCallExpr) matches Ok(c) && c =~~= enc_function_call_expression(
                        FunctionCallExpression::FunctionCallOptions(Box::new(x)),
                    ));
                }
                Ok(FunctionCallExpression::FunctionCallOptions(Box::new(x)))
            },
            Err(e) => Err(e),
        }
    } else if str_eq(tag.as_str(), "Identifier") {
        match crate::ast::dec_leaf::decode_identifier(ps) {
            Ok(x) => Ok(FunctionCallExpression::Identifier(Box::new(x))),
            Err(e) => Err(e),
        }
    } else if str_eq(tag.as_str(), "MemberAccess") {
        match decode_member_access(ps) {
            Ok(x) => {
                proof {
                    assert(canon_node(jv(*v), Fam::FnCallExpr) matches Ok(c) && c =~~= enc_function_call_expression(
                        FunctionCallExpression::MemberAccess(Box::new(x)),
                    ));
                }
                Ok(FunctionCallExpression::MemberAccess(Box::new(x)))
            },
            Err(e) => Err(e),
        }
    } else if str_eq(tag.as_str(), "NewExpression") {
        match decode_new_expression(ps) {
            Ok(x) => {
                proof {
                    assert(canon_node(jv(*v), Fam::FnCallExpr) matches Ok(c) && c =~~= enc_function_call_expression(
                        FunctionCallExpression::NewExpression(Box::new(x)),
                    ));
                }
                Ok(FunctionCallExpression::NewExpression(Box::new(x)))
            },
            Err(e) => Err(e),
        }
    } else {
        Err(DecodeError::UnknownDiscriminator(tag.clone()))
    }
}

} // verus!
