//! Decoders for the statement records and the statement family.

use vstd::prelude::*;

use crate::ast::canon::{
    Child, DecodeError, EnumId, ErrV, Fam, FieldKind, RecId, canon_doc, canon_elems,
    canon_field, canon_fields, canon_members, canon_node, canon_rec, canon_value, cat_opts,
    enum_ok, fam_rec, idx_path, lemma_canon_fields_err_shape, lemma_canon_fields_first_err,
    lemma_canon_fields_ok, lemma_canon_value_arr_unfold, lemma_canon_value_child_unfold,
    lemma_canon_value_map_unfold, lemma_canon_value_opt_arr_unfold,
    lemma_canon_value_opt_child_unfold, prefix_err, prefix_field, prefix_index, rec_tag,
    schema,
};
use crate::ast::fields::{
    field_matches, g_arr_i64, g_bool, g_bool_or_int, g_bool_prefix_alias, g_def_arr_i64,
    g_elem, g_i64, g_opt_arr_i64, g_opt_bool, g_opt_i64, g_opt_str, g_opt_str_omit, g_src,
    g_str, ints_of, lemma_canon_elems_err, lemma_canon_elems_ok, map_ints_of, omit_str_of,
    opt_arr_ints_of, opt_bool_of, opt_int_of, opt_ints_of, opt_str_of, opt_strs_of, strs_of,
};
use crate::ast::shape::{
    enc_array_type_name, enc_assignment, enc_binary_operation, enc_block, enc_break_statement,
    enc_common_type, enc_conditional, enc_continue_statement, enc_contract_definition,
    enc_contract_node, enc_do_while_statement, enc_doc, enc_documentation_custom,
    enc_documentation_parameter, enc_documentation_return, enc_elementary_type_name,
    enc_elementary_type_name_expression, enc_emit_statement, enc_enum_definition,
    enc_enum_value, enc_error_definition, enc_event_definition, enc_expr,
    enc_expression_statement, enc_external_reference, enc_for_statement, enc_function_call,
    enc_function_call_expression, enc_function_call_options, enc_function_definition,
    enc_function_type_name, enc_identifier, enc_identifier_path, enc_if_statement,
    enc_import_directive, enc_index_access, enc_inheritance_specifier, enc_inline_assembly,
    enc_literal, enc_mapping, enc_member_access, enc_modifier_definition,
    enc_modifier_invocation, enc_new_expression, enc_override_specifier, enc_parameter_list,
    enc_placeholder_statement, enc_pragma_directive, enc_return_statement,
    enc_revert_statement, enc_source_unit, enc_source_unit_node, enc_stmt,
    enc_struct_definition, enc_structured_documentation, enc_symbol_alias,
    enc_try_catch_clause, enc_try_statement, enc_tuple_expression, enc_type_descriptions,
    enc_type_name, enc_unary_operation, enc_unchecked_block, enc_user_defined_type_name,
    enc_user_defined_value_type_definition, enc_using_for_directive, enc_variable_declaration,
    enc_variable_declaration_statement, enc_while_statement, lemma_seq_contract_node_of,
    lemma_seq_expr_of, lemma_seq_inheritance_specifier_of, lemma_seq_modifier_invocation_of,
    lemma_seq_opt_expr_of, lemma_seq_opt_variable_declaration_of,
    lemma_seq_source_unit_node_of, lemma_seq_stmt_of, lemma_seq_try_catch_clause_of,
    lemma_seq_type_name_of, lemma_seq_variable_declaration_of, opt_arr_expr_of,
    opt_arr_external_reference_of, opt_arr_inheritance_specifier_of,
    opt_arr_type_descriptions_of, opt_block_of, opt_doc_of, opt_expr_of, opt_free_of,
    opt_identifier_path_of, opt_override_specifier_of, opt_parameter_list_of, opt_spell_mik_of,
    opt_spell_mut_of, opt_spell_sl_of, opt_spell_sm_of, opt_stmt_of, opt_type_name_of,
    opt_user_defined_type_name_of, opt_variable_declaration_of, seq_contract_node_of,
    seq_documentation_custom_of, seq_documentation_parameter_of, seq_documentation_return_of,
    seq_enum_value_of, seq_expr_of, seq_external_reference_of, seq_identifier_path_of,
    seq_inheritance_specifier_of, seq_modifier_invocation_of, seq_opt_expr_of,
    seq_opt_variable_declaration_of, seq_source_unit_node_of, seq_stmt_of, seq_symbol_alias_of,
    seq_try_catch_clause_of, seq_type_descriptions_of, seq_type_name_of,
    seq_variable_declaration_of, spell_ck, spell_fk, spell_lit, spell_mik, spell_mut, spell_sl,
    spell_sm, spell_vis,
};
use crate::ast::common::spec_encode_location;
use crate::ast::types::spec_encode_elementary;
use crate::ast::{
    ArrayTypeName, Assignment, BinaryOperation, Block, Break, CommonType, Conditional,
    Continue, ContractDefinition, ContractDefinitionNode, ContractKind, DoWhileStatement,
    Documentation, ElementaryType, ElementaryTypeName, ElementaryTypeNameExpression,
    EmitStatement, EnumDefinition, EnumValue, ErrorDefinition, EventDefinition, Expression,
    ExpressionStatement, ExternalReference, ForStatement, FunctionCall, FunctionCallExpression,
    FunctionCallOptions, FunctionDefinition, FunctionKind, FunctionTypeName, Identifier,
    IdentifierPath, IfStatement, ImportDirective, IndexAccess, InheritanceSpecifier,
    InlineAssembly, Literal, LiteralKind, Mapping, MemberAccess, ModifierDefinition,
    ModifierInvocation, ModifierInvocationKind, Mutability, NewExpression, OverrideSpecifier,
    ParameterList, PlaceholderStatement, PragmaDirective, Return, RevertStatement,
    SourceLocation, SourceUnit, SourceUnitNode, StateMutability, Statement, StorageLocation,
    StructDefinition, StructuredDocumentation, StructuredDocumentationCustom,
    StructuredDocumentationParameter, StructuredDocumentationReturn, SymbolAlias,
    TryCatchClause, TryStatement, TupleExpression, TypeDescriptions, TypeName, UnaryOperation,
    UncheckedBlock, UserDefinedTypeName, UserDefinedValueTypeDefinition, UsingForDirective,
    VariableDeclaration, VariableDeclarationStatement, Visibility, WhileStatement,
};
use crate::json::{
    clone_json, jv, jv_lookup, jv_pairs, jv_seq, lemma_jv_pairs, lemma_jv_seq, obj_get, str_eq,
    JsonV, JsonValue,
};

verus! {

/// Reads a required nested block member.
pub(crate) fn g_c_block(ps: &Vec<(String, JsonValue)>, k: &str) -> (r: Result<Block, DecodeError>)
    ensures
        field_matches(
            r,
            ps@,
            k@,
            FieldKind::KChild(Child::CRec(RecId::RBlock)),
            |x: Block| Some(JsonV::Obj(enc_block(x))),
        ),
    decreases jv_pairs(ps@), 4int, 0int,
{
    proof {
        reveal(crate::ast::canon::canon_field);
        reveal(crate::ast::canon::canon_value);
    }
    match obj_get(ps, k) {
        None => Err(DecodeError::Missing(k.to_owned())),
        Some(v) => match v {
            JsonValue::Obj(cps) => {
                proof {
                    assert(jv(*v) == JsonV::Obj(jv_pairs(cps@)));
                    lemma_jv_pairs(ps@);
                    let i = choose|i: int| 0 <= i < ps@.len() && ps@[i].1 == *v;
                    assert(jv_pairs(ps@)[i] == (ps@[i].0@, jv(*v)));
                    assert(decreases_to!(jv_pairs(ps@) => jv_pairs(ps@)[i].1));
                    assert(jv(*v)->Obj_0 == jv_pairs(cps@));
                    assert(decreases_to!(jv(*v) => jv(*v)->Obj_0));
                }
                match decode_block(cps) {
                    Ok(x) => Ok(x),
                    Err(e) => {
                        proof {
                            lemma_canon_fields_err_shape(jv_pairs(cps@), schema(RecId::RBlock), 0);
                        }
                        Err(prefix_field(k, e))
                    },
                }
            },
            _ => Err(DecodeError::Invalid(k.to_owned())),
        },
    }
}

/// Reads an optional block member.
pub(crate) fn g_oc_block(ps: &Vec<(String, JsonValue)>, k: &str) -> (r: Result<
    Option<Block>,
    DecodeError,
>)
    ensures
        field_matches(
            r,
            ps@,
            k@,
            FieldKind::KOptChild(Child::CRec(RecId::RBlock)),
            |x: Option<Block>| Some(opt_block_of(x)),
        ),
    decreases jv_pairs(ps@), 4int, 0int,
{
    proof {
        reveal(crate::ast::canon::canon_field);
        reveal(crate::ast::canon::canon_value);
    }
    match obj_get(ps, k) {
        None => Ok(None),
        Some(v) => match v {
            JsonValue::Null => {
                proof {
                    lemma_canon_value_opt_child_unfold(jv(*v), Child::CRec(RecId::RBlock));
                }
                Ok(None)
            },
            JsonValue::Obj(cps) => {
                proof {
                    lemma_canon_value_opt_child_unfold(jv(*v), Child::CRec(RecId::RBlock));
                    assert(jv(*v) == JsonV::Obj(jv_pairs(cps@)));
                    lemma_jv_pairs(ps@);
                    let i = choose|i: int| 0 <= i < ps@.len() && ps@[i].1 == *v;
                    assert(jv_pairs(ps@)[i] == (ps@[i].0@, jv(*v)));
                    assert(decreases_to!(jv_pairs(ps@) => jv_pairs(ps@)[i].1));
                    assert(jv(*v)->Obj_0 == jv_pairs(cps@));
                    assert(decreases_to!(jv(*v) => jv(*v)->Obj_0));
                }
                match decode_block(cps) {
                    Ok(x) => Ok(Some(x)),
                    Err(e) => {
                        proof {
                            lemma_canon_fields_err_shape(jv_pairs(cps@), schema(RecId::RBlock), 0);
                        }
                        Err(prefix_field(k, e))
                    },
                }
            },
            _ => {
                proof {
                    lemma_canon_value_opt_child_unfold(jv(*v), Child::CRec(RecId::RBlock));
                }
                Err(DecodeError::Invalid(k.to_owned()))
            },
        },
    }
}

/// Decodes the elements of an array of stmt members.
pub(crate) fn core_arr_stmt(elems: &Vec<JsonValue>) -> (r: Result<Vec<Statement>, DecodeError>)
    ensures
        match r {
            Ok(xs) => canon_elems(jv_seq(elems@), 0, FieldKind::KChild(Child::CFam(Fam::Stmt))) == Ok::<Seq<JsonV>, ErrV>(seq_stmt_of(xs@)),
            Err(e) => canon_elems(jv_seq(elems@), 0, FieldKind::KChild(Child::CFam(Fam::Stmt))) == Err::<Seq<JsonV>, ErrV>(e.model()),
        },
    decreases jv_seq(elems@), 6int, 0int,
{
    proof {
        reveal(crate::ast::canon::canon_value);
        reveal(crate::ast::canon::canon_field);
    }
    let ghost s = jv_seq(elems@);
    let ghost ek = FieldKind::KChild(Child::CFam(Fam::Stmt));
    proof {
        lemma_jv_seq(elems@);
    }
    let n = elems.len();
    let mut out: Vec<Statement> = Vec::new();
    let mut i: usize = 0;
    while i < n
        invariant
            i <= n,
            n == elems@.len(),
            s == jv_seq(elems@),
            s.len() == n,
            forall|j: int| 0 <= j < n ==> s[j] == jv(elems@[j]),
            out@.len() == i,
            forall|j: int| 0 <= j < i ==> canon_value(#[trigger] s[j], ek) == Ok::<JsonV, ErrV>(
                enc_stmt(out@[j]),
            ),
            ek == FieldKind::KChild(Child::CFam(Fam::Stmt)),
        decreases n - i,
    {
        let child = &elems[i];
        proof {
            assert(s[i as int] == jv(*child));
            assert(decreases_to!(s => s[i as int]));
        }
        match decode_statement(child) {
            Ok(x) => {
                out.push(x);
                proof {
                    lemma_canon_value_child_unfold(s[i as int], Child::CFam(Fam::Stmt));
                    
                    assert(canon_value(s[i as int], ek) == Ok::<JsonV, ErrV>(enc_stmt(x)));
                }
            },
            Err(e) => {
                proof {
                    lemma_canon_value_child_unfold(s[i as int], Child::CFam(Fam::Stmt));
                    
                    crate::ast::dec_leaf::lemma_canon_node_err_shape(jv(*child), Fam::Stmt);
                    lemma_canon_elems_err(s, i as int, ek);
                    assert(prefix_err(idx_path(i as int), canon_value(s[i as int], ek)->Err_0)
                        == prefix_err(idx_path(i as int), e.model()));
                }
                return Err(prefix_index(i, e));
            },
        }
        i += 1;
    }
    proof {
        lemma_canon_elems_ok(s, ek);
        let cs = canon_elems(s, 0, ek)->Ok_0;
        crate::ast::shape::lemma_seq_stmt_of(out@);
        assert forall|j: int| 0 <= j < n implies cs[j] == seq_stmt_of(out@)[j] by {
            assert(canon_value(s[j], ek) == Ok::<JsonV, ErrV>(enc_stmt(out@[j])));
        }
        assert(cs =~= seq_stmt_of(out@));
    }
    Ok(out)
}

/// Reads a required array-of-stmt member.
pub(crate) fn g_ac_stmt(ps: &Vec<(String, JsonValue)>, k: &str) -> (r: Result<Vec<Statement>, DecodeError>)
    ensures
        field_matches(r, ps@, k@, FieldKind::KArrChild(Child::CFam(Fam::Stmt)), |x: Vec<Statement>| Some(JsonV::Arr(seq_stmt_of(x@)))),
    decreases jv_pairs(ps@), 4int, 0int,
{
    proof {
        reveal(crate::ast::canon::canon_field);
        reveal(crate::ast::canon::canon_value);
    }
    match obj_get(ps, k) {
        None => Err(DecodeError::Missing(k.to_owned())),
        Some(v) => match v {
            JsonValue::Arr(elems) => {
                proof {
                    lemma_canon_value_arr_unfold(jv(*v), FieldKind::KArrChild(Child::CFam(Fam::Stmt)), FieldKind::KChild(Child::CFam(Fam::Stmt)));
                    assert(jv(*v) == JsonV::Arr(jv_seq(elems@)));
                    lemma_jv_pairs(ps@);
                    let i = choose|i: int| 0 <= i < ps@.len() && ps@[i].1 == *v;
                    assert(jv_pairs(ps@)[i] == (ps@[i].0@, jv(*v)));
                    assert(decreases_to!(jv_pairs(ps@) => jv_pairs(ps@)[i].1));
                    assert(jv(*v)->Arr_0 == jv_seq(elems@));
                    assert(decreases_to!(jv(*v) => jv(*v)->Arr_0));
                }
                match core_arr_stmt(elems) {
                    Ok(xs) => Ok(xs),
                    Err(e) => Err(prefix_field(k, e)),
                }
            },
            _ => {
                proof {
                    lemma_canon_value_arr_unfold(jv(*v), FieldKind::KArrChild(Child::CFam(Fam::Stmt)), FieldKind::KChild(Child::CFam(Fam::Stmt)));
                }
                Err(DecodeError::Invalid(k.to_owned()))
            },
        },
    }
}

/// Reads a required stmt member.
pub(crate) fn g_c_stmt(ps: &Vec<(String, JsonValue)>, k: &str) -> (r: Result<Statement, DecodeError>)
    ensures
        field_matches(
            r,
            ps@,
            k@,
            FieldKind::KChild(Child::CFam(Fam::Stmt)),
            |x: Statement| Some(enc_stmt(x)),
        ),
    decreases jv_pairs(ps@), 4int, 0int,
{
    proof {
        reveal(crate::ast::canon::canon_field);
        reveal(crate::ast::canon::canon_value);
    }
    match obj_get(ps, k) {
        None => Err(DecodeError::Missing(k.to_owned())),
        Some(v) => {
            proof {
                lemma_jv_pairs(ps@);
                let i = choose|i: int| 0 <= i < ps@.len() && ps@[i].1 == *v;
                assert(jv_pairs(ps@)[i] == (ps@[i].0@, jv(*v)));
                assert(decreases_to!(jv_pairs(ps@) => jv_pairs(ps@)[i].1));
            }
            match decode_statement(v) {
                Ok(x) => Ok(x),
                Err(e) => {
                    proof {
                        crate::ast::dec_leaf::lemma_canon_node_err_shape(jv(*v), Fam::Stmt);
                    }
                    Err(prefix_field(k, e))
                },
            }
        },
    }
}

/// Reads an optional stmt member.
pub(crate) fn g_oc_stmt(ps: &Vec<(String, JsonValue)>, k: &str) -> (r: Result<
    Option<Statement>,
    DecodeError,
>)
    ensures
        field_matches(
            r,
            ps@,
            k@,
            FieldKind::KOptChild(Child::CFam(Fam::Stmt)),
            |x: Option<Statement>| Some(opt_stmt_of(x)),
        ),
    decreases jv_pairs(ps@), 4int, 0int,
{
    proof {
        reveal(crate::ast::canon::canon_field);
        reveal(crate::ast::canon::canon_value);
    }
    match obj_get(ps, k) {
        None => Ok(None),
        Some(v) => match v {
            JsonValue::Null => {
                proof {
                    lemma_canon_value_opt_child_unfold(jv(*v), Child::CFam(Fam::Stmt));
                }
                Ok(None)
            },
            _ => {
                proof {
                    lemma_canon_value_opt_child_unfold(jv(*v), Child::CFam(Fam::Stmt));
                    lemma_jv_pairs(ps@);
                    let i = choose|i: int| 0 <= i < ps@.len() && ps@[i].1 == *v;
                    assert(jv_pairs(ps@)[i] == (ps@[i].0@, jv(*v)));
                    assert(decreases_to!(jv_pairs(ps@) => jv_pairs(ps@)[i].1));
                }
                match decode_statement(v) {
                    Ok(x) => Ok(Some(x)),
                    Err(e) => {
                        proof {
                            crate::ast::dec_leaf::lemma_canon_node_err_shape(jv(*v), Fam::Stmt);
                        }
                        Err(prefix_field(k, e))
                    },
                }
            },
        },
    }
}

/// Decodes the elements of an array of try catch clause members.
pub(crate) fn core_arr_try_catch_clause(elems: &Vec<JsonValue>) -> (r: Result<Vec<TryCatchClause>, DecodeError>)
    ensures
        match r {
            Ok(xs) => canon_elems(jv_seq(elems@), 0, FieldKind::KChild(Child::CRec(RecId::RTryCatchClause))) == Ok::<Seq<JsonV>, ErrV>(seq_try_catch_clause_of(xs@)),
            Err(e) => canon_elems(jv_seq(elems@), 0, FieldKind::KChild(Child::CRec(RecId::RTryCatchClause))) == Err::<Seq<JsonV>, ErrV>(e.model()),
        },
    decreases jv_seq(elems@), 6int, 0int,
{
    proof {
        reveal(crate::ast::canon::canon_value);
        reveal(crate::ast::canon::canon_field);
    }
    let ghost s = jv_seq(elems@);
    let ghost ek = FieldKind::KChild(Child::CRec(RecId::RTryCatchClause));
    proof {
        lemma_jv_seq(elems@);
    }
    let n = elems.len();
    let mut out: Vec<TryCatchClause> = Vec::new();
    let mut i: usize = 0;
    while i < n
        invariant
            i <= n,
            n == elems@.len(),
            s == jv_seq(elems@),
            s.len() == n,
            forall|j: int| 0 <= j < n ==> s[j] == jv(elems@[j]),
            out@.len() == i,
            forall|j: int| 0 <= j < i ==> canon_value(#[trigger] s[j], ek) == Ok::<JsonV, ErrV>(
                JsonV::Obj(enc_try_catch_clause(out@[j])),
            ),
            ek == FieldKind::KChild(Child::CRec(RecId::RTryCatchClause)),
        decreases n - i,
    {
        let child = &elems[i];
        proof {
            assert(s[i as int] == jv(*child));
            assert(decreases_to!(s => s[i as int]));
        }
        match child {
            JsonValue::Obj(cps) => {
                proof {
                    assert(jv(*child) == JsonV::Obj(jv_pairs(cps@)));
                    assert(jv(*child)->Obj_0 == jv_pairs(cps@));
                    assert(decreases_to!(jv(*child) => jv(*child)->Obj_0));
                }
                match decode_try_catch_clause(cps) {
                    Ok(x) => {
                        out.push(x);
                        proof {
                            lemma_canon_value_child_unfold(s[i as int], Child::CRec(RecId::RTryCatchClause));
                            
                            assert(canon_value(s[i as int], ek) == Ok::<JsonV, ErrV>(JsonV::Obj(enc_try_catch_clause(x))));
                        }
                    },
                    Err(e) => {
                        proof {
                            lemma_canon_value_child_unfold(s[i as int], Child::CRec(RecId::RTryCatchClause));
                            
                            lemma_canon_fields_err_shape(jv_pairs(cps@), schema(RecId::RTryCatchClause), 0);
                            lemma_canon_elems_err(s, i as int, ek);
                            assert(prefix_err(
                                idx_path(i as int),
                                canon_value(s[i as int], ek)->Err_0,
                            ) == prefix_err(idx_path(i as int), e.model()));
                        }
                        return Err(prefix_index(i, e));
                    },
                }
            },
            _ => {
                proof {
                    lemma_canon_value_child_unfold(s[i as int], Child::CRec(RecId::RTryCatchClause));
                    
                    lemma_canon_elems_err(s, i as int, ek);
                }
                return Err(prefix_index(i, DecodeError::Invalid(String::new())));
            },
        }
        i += 1;
    }
    proof {
        lemma_canon_elems_ok(s, ek);
        let cs = canon_elems(s, 0, ek)->Ok_0;
        crate::ast::shape::lemma_seq_try_catch_clause_of(out@);
        assert forall|j: int| 0 <= j < n implies cs[j] == seq_try_catch_clause_of(out@)[j] by {
            assert(canon_value(s[j], ek) == Ok::<JsonV, ErrV>(JsonV::Obj(enc_try_catch_clause(out@[j]))));
        }
        assert(cs =~= seq_try_catch_clause_of(out@));
    }
    Ok(out)
}

/// Reads a required array-of-try catch clause member.
pub(crate) fn g_ac_try_catch_clause(ps: &Vec<(String, JsonValue)>, k: &str) -> (r: Result<Vec<TryCatchClause>, DecodeError>)
    ensures
        field_matches(r, ps@, k@, FieldKind::KArrChild(Child::CRec(RecId::RTryCatchClause)), |x: Vec<TryCatchClause>| Some(JsonV::Arr(seq_try_catch_clause_of(x@)))),
    decreases jv_pairs(ps@), 4int, 0int,
{
    proof {
        reveal(crate::ast::canon::canon_field);
        reveal(crate::ast::canon::canon_value);
    }
    match obj_get(ps, k) {
        None => Err(DecodeError::Missing(k.to_owned())),
        Some(v) => match v {
            JsonValue::Arr(elems) => {
                proof {
                    lemma_canon_value_arr_unfold(jv(*v), FieldKind::KArrChild(Child::CRec(RecId::RTryCatchClause)), FieldKind::KChild(Child::CRec(RecId::RTryCatchClause)));
                    assert(jv(*v) == JsonV::Arr(jv_seq(elems@)));
                    lemma_jv_pairs(ps@);
                    let i = choose|i: int| 0 <= i < ps@.len() && ps@[i].1 == *v;
                    assert(jv_pairs(ps@)[i] == (ps@[i].0@, jv(*v)));
                    assert(decreases_to!(jv_pairs(ps@) => jv_pairs(ps@)[i].1));
                    assert(jv(*v)->Arr_0 == jv_seq(elems@));
                    assert(decreases_to!(jv(*v) => jv(*v)->Arr_0));
                }
                match core_arr_try_catch_clause(elems) {
                    Ok(xs) => Ok(xs),
                    Err(e) => Err(prefix_field(k, e)),
                }
            },
            _ => {
                proof {
                    lemma_canon_value_arr_unfold(jv(*v), FieldKind::KArrChild(Child::CRec(RecId::RTryCatchClause)), FieldKind::KChild(Child::CRec(RecId::RTryCatchClause)));
                }
                Err(DecodeError::Invalid(k.to_owned()))
            },
        },
    }
}

/// Decodes a block record from the members of an object.
pub fn decode_block(ps: &Vec<(String, JsonValue)>) -> (r: Result<Block, DecodeError>)
    ensures
        match r {
            Ok(x) => canon_fields(jv_pairs(ps@), schema(RecId::RBlock), 0) == Ok::<
                Seq<(Seq<char>, JsonV)>,
                ErrV,
            >(enc_block(x)),
            Err(e) => canon_fields(jv_pairs(ps@), schema(RecId::RBlock), 0) == Err::<
                Seq<(Seq<char>, JsonV)>,
                ErrV,
            >(e.model()),
        },
    decreases jv_pairs(ps@), 5int, 0int,
{
    let ghost psv = jv_pairs(ps@);
    let ghost fs = schema(RecId::RBlock);
    let id = match g_i64(ps, "id") {
        Ok(x) => x,
        Err(e) => {
            proof {
                lemma_canon_fields_first_err(psv, fs, 0, 0, e.model());
            }
            return Err(e);
        },
    };
    let statements = match g_ac_stmt(ps, "statements") {
        Ok(x) => x,
        Err(e) => {
            proof {
                assert forall|m: int| 0 <= m < 1 implies canon_field(
                    psv,
                    (#[trigger] fs[m]).0,
                    fs[m].1,
                ) is Ok by {}
                lemma_canon_fields_first_err(psv, fs, 0, 1, e.model());
            }
            return Err(e);
        },
    };
    let src = match g_src(ps, "src") {
        Ok(x) => x,
        Err(e) => {
            proof {
                assert forall|m: int| 0 <= m < 2 implies canon_field(
                    psv,
                    (#[trigger] fs[m]).0,
                    fs[m].1,
                ) is Ok by {}
                lemma_canon_fields_first_err(psv, fs, 0, 2, e.model());
            }
            return Err(e);
        },
    };
    let result = Block { id, statements, src };
    let ghost outs: Seq<(Seq<char>, Option<JsonV>)> = seq![
        ("id"@, Some(JsonV::Int(result.id as int))),
        ("statements"@, Some(JsonV::Arr(seq_stmt_of(result.statements@)))),
        ("src"@, Some(JsonV::Str(spec_encode_location(result.src)))),
    ];
    proof {
        assert forall|j: int| 0 <= j < fs.len() implies (#[trigger] outs[j]).0 == fs[j].0
            && canon_field(psv, fs[j].0, fs[j].1) == Ok::<Option<JsonV>, ErrV>(outs[j].1) by {}
        lemma_canon_fields_ok(psv, fs, outs, 0);
        assert(cat_opts(outs, 0) =~= enc_block(result)) by {
            reveal_with_fuel(cat_opts, 5);
        }
    }
    Ok(result)
}

/// Decodes a uncheckedBlock record from the members of an object.
pub fn decode_unchecked_block(ps: &Vec<(String, JsonValue)>) -> (r: Result<UncheckedBlock, DecodeError>)
    ensures
        match r {
            Ok(x) => canon_fields(jv_pairs(ps@), schema(RecId::RUncheckedBlock), 0) == Ok::<
                Seq<(Seq<char>, JsonV)>,
                ErrV,
            >(enc_unchecked_block(x)),
            Err(e) => canon_fields(jv_pairs(ps@), schema(RecId::RUncheckedBlock), 0) == Err::<
                Seq<(Seq<char>, JsonV)>,
                ErrV,
            >(e.model()),
        },
    decreases jv_pairs(ps@), 5int, 0int,
{
    let ghost psv = jv_pairs(ps@);
    let ghost fs = schema(RecId::RUncheckedBlock);
    let id = match g_i64(ps, "id") {
        Ok(x) => x,
        Err(e) => {
            proof {
                lemma_canon_fields_first_err(psv, fs, 0, 0, e.model());
            }
            return Err(e);
        },
    };
    let statements = match g_ac_stmt(ps, "statements") {
        Ok(x) => x,
        Err(e) => {
            proof {
                assert forall|m: int| 0 <= m < 1 implies canon_field(
                    psv,
                    (#[trigger] fs[m]).0,
                    fs[m].1,
                ) is Ok by {}
                lemma_canon_fields_first_err(psv, fs, 0, 1, e.model());
            }
            return Err(e);
        },
    };
    let src = match g_src(ps, "src") {
        Ok(x) => x,
        Err(e) => {
            proof {
                assert forall|m: int| 0 <= m < 2 implies canon_field(
                    psv,
                    (#[trigger] fs[m]).0,
                    fs[m].1,
                ) is Ok by {}
                lemma_canon_fields_first_err(psv, fs, 0, 2, e.model());
            }
            return Err(e);
        },
    };
    let result = UncheckedBlock { id, statements, src };
    let ghost outs: Seq<(Seq<char>, Option<JsonV>)> = seq![
        ("id"@, Some(JsonV::Int(result.id as int))),
        ("statements"@, Some(JsonV::Arr(seq_stmt_of(result.statements@)))),
        ("src"@, Some(JsonV::Str(spec_encode_location(result.src)))),
    ];
    proof {
        assert forall|j: int| 0 <= j < fs.len() implies (#[trigger] outs[j]).0 == fs[j].0
            && canon_field(psv, fs[j].0, fs[j].1) == Ok::<Option<JsonV>, ErrV>(outs[j].1) by {}
        lemma_canon_fields_ok(psv, fs, outs, 0);
        assert(cat_opts(outs, 0) =~= enc_unchecked_block(result)) by {
            reveal_with_fuel(cat_opts, 5);
        }
    }
    Ok(result)
}

/// Decodes a break record from the members of an object.
pub fn decode_break_statement(ps: &Vec<(String, JsonValue)>) -> (r: Result<Break, DecodeError>)
    ensures
        match r {
            Ok(x) => canon_fields(jv_pairs(ps@), schema(RecId::RBreak), 0) == Ok::<
                Seq<(Seq<char>, JsonV)>,
                ErrV,
            >(enc_break_statement(x)),
            Err(e) => canon_fields(jv_pairs(ps@), schema(RecId::RBreak), 0) == Err::<
                Seq<(Seq<char>, JsonV)>,
                ErrV,
            >(e.model()),
        },
{
    let ghost psv = jv_pairs(ps@);
    let ghost fs = schema(RecId::RBreak);
    let id = match g_i64(ps, "id") {
        Ok(x) => x,
        Err(e) => {
            proof {
                lemma_canon_fields_first_err(psv, fs, 0, 0, e.model());
            }
            return Err(e);
        },
    };
    let src = match g_src(ps, "src") {
        Ok(x) => x,
        Err(e) => {
            proof {
                assert forall|m: int| 0 <= m < 1 implies canon_field(
                    psv,
                    (#[trigger] fs[m]).0,
                    fs[m].1,
                ) is Ok by {}
                lemma_canon_fields_first_err(psv, fs, 0, 1, e.model());
            }
            return Err(e);
        },
    };
    let result = Break { id, src };
    let ghost outs: Seq<(Seq<char>, Option<JsonV>)> = seq![
        ("id"@, Some(JsonV::Int(result.id as int))),
        ("src"@, Some(JsonV::Str(spec_encode_location(result.src)))),
    ];
    proof {
        assert forall|j: int| 0 <= j < fs.len() implies (#[trigger] outs[j]).0 == fs[j].0
            && canon_field(psv, fs[j].0, fs[j].1) == Ok::<Option<JsonV>, ErrV>(outs[j].1) by {}
        lemma_canon_fields_ok(psv, fs, outs, 0);
        assert(cat_opts(outs, 0) =~= enc_break_statement(result)) by {
            reveal_with_fuel(cat_opts, 4);
        }
    }
    Ok(result)
}

/// Decodes a continue record from the members of an object.
pub fn decode_continue_statement(ps: &Vec<(String, JsonValue)>) -> (r: Result<Continue, DecodeError>)
    ensures
        match r {
            Ok(x) => canon_fields(jv_pairs(ps@), schema(RecId::RContinue), 0) == Ok::<
                Seq<(Seq<char>, JsonV)>,
                ErrV,
            >(enc_continue_statement(x)),
            Err(e) => canon_fields(jv_pairs(ps@), schema(RecId::RContinue), 0) == Err::<
                Seq<(Seq<char>, JsonV)>,
                ErrV,
            >(e.model()),
        },
{
    let ghost psv = jv_pairs(ps@);
    let ghost fs = schema(RecId::RContinue);
    let id = match g_i64(ps, "id") {
        Ok(x) => x,
        Err(e) => {
            proof {
                lemma_canon_fields_first_err(psv, fs, 0, 0, e.model());
            }
            return Err(e);
        },
    };
    let src = match g_src(ps, "src") {
        Ok(x) => x,
        Err(e) => {
            proof {
                assert forall|m: int| 0 <= m < 1 implies canon_field(
                    psv,
                    (#[trigger] fs[m]).0,
                    fs[m].1,
                ) is Ok by {}
                lemma_canon_fields_first_err(psv, fs, 0, 1, e.model());
            }
            return Err(e);
        },
    };
    let result = Continue { id, src };
    let ghost outs: Seq<(Seq<char>, Option<JsonV>)> = seq![
        ("id"@, Some(JsonV::Int(result.id as int))),
        ("src"@, Some(JsonV::Str(spec_encode_location(result.src)))),
    ];
    proof {
        assert forall|j: int| 0 <= j < fs.len() implies (#[trigger] outs[j]).0 == fs[j].0
            && canon_field(psv, fs[j].0, fs[j].1) == Ok::<Option<JsonV>, ErrV>(outs[j].1) by {}
        lemma_canon_fields_ok(psv, fs, outs, 0);
        assert(cat_opts(outs, 0) =~= enc_continue_statement(result)) by {
            reveal_with_fuel(cat_opts, 4);
        }
    }
    Ok(result)
}

/// Decodes a doWhileStatement record from the members of an object.
pub fn decode_do_while_statement(ps: &Vec<(String, JsonValue)>) -> (r: Result<DoWhileStatement, DecodeError>)
    ensures
        match r {
            Ok(x) => canon_fields(jv_pairs(ps@), schema(RecId::RDoWhileStatement), 0) == Ok::<
                Seq<(Seq<char>, JsonV)>,
                ErrV,
            >(enc_do_while_statement(x)),
            Err(e) => canon_fields(jv_pairs(ps@), schema(RecId::RDoWhileStatement), 0) == Err::<
                Seq<(Seq<char>, JsonV)>,
                ErrV,
            >(e.model()),
        },
    decreases jv_pairs(ps@), 5int, 0int,
{
    let ghost psv = jv_pairs(ps@);
    let ghost fs = schema(RecId::RDoWhileStatement);
    let id = match g_i64(ps, "id") {
        Ok(x) => x,
        Err(e) => {
            proof {
                lemma_canon_fields_first_err(psv, fs, 0, 0, e.model());
            }
            return Err(e);
        },
    };
    let condition = match crate::ast::dec_expr::g_c_expr(ps, "condition") {
        Ok(x) => x,
        Err(e) => {
            proof {
                assert forall|m: int| 0 <= m < 1 implies canon_field(
                    psv,
                    (#[trigger] fs[m]).0,
                    fs[m].1,
                ) is Ok by {}
                lemma_canon_fields_first_err(psv, fs, 0, 1, e.model());
            }
            return Err(e);
        },
    };
    let body = match g_c_stmt(ps, "body") {
        Ok(x) => x,
        Err(e) => {
            proof {
                assert forall|m: int| 0 <= m < 2 implies canon_field(
                    psv,
                    (#[trigger] fs[m]).0,
                    fs[m].1,
                ) is Ok by {}
                lemma_canon_fields_first_err(psv, fs, 0, 2, e.model());
            }
            return Err(e);
        },
    };
    let src = match g_src(ps, "src") {
        Ok(x) => x,
        Err(e) => {
            proof {
                assert forall|m: int| 0 <= m < 3 implies canon_field(
                    psv,
                    (#[trigger] fs[m]).0,
                    fs[m].1,
                ) is Ok by {}
                lemma_canon_fields_first_err(psv, fs, 0, 3, e.model());
            }
            return Err(e);
        },
    };
    let result = DoWhileStatement { id, condition, body, src };
    let ghost outs: Seq<(Seq<char>, Option<JsonV>)> = seq![
        ("id"@, Some(JsonV::Int(result.id as int))),
        ("condition"@, Some(enc_expr(result.condition))),
        ("body"@, Some(enc_stmt(result.body))),
        ("src"@, Some(JsonV::Str(spec_encode_location(result.src)))),
    ];
    proof {
        assert forall|j: int| 0 <= j < fs.len() implies (#[trigger] outs[j]).0 == fs[j].0
            && canon_field(psv, fs[j].0, fs[j].1) == Ok::<Option<JsonV>, ErrV>(outs[j].1) by {}
        lemma_canon_fields_ok(psv, fs, outs, 0);
        assert(cat_opts(outs, 0) =~= enc_do_while_statement(result)) by {
            reveal_with_fuel(cat_opts, 6);
        }
    }
    Ok(result)
}

/// Decodes a emitStatement record from the members of an object.
pub fn decode_emit_statement(ps: &Vec<(String, JsonValue)>) -> (r: Result<EmitStatement, DecodeError>)
    ensures
        match r {
            Ok(x) => canon_fields(jv_pairs(ps@), schema(RecId::REmitStatement), 0) == Ok::<
                Seq<(Seq<char>, JsonV)>,
                ErrV,
            >(enc_emit_statement(x)),
            Err(e) => canon_fields(jv_pairs(ps@), schema(RecId::REmitStatement), 0) == Err::<
                Seq<(Seq<char>, JsonV)>,
                ErrV,
            >(e.model()),
        },
    decreases jv_pairs(ps@), 5int, 0int,
{
    let ghost psv = jv_pairs(ps@);
    let ghost fs = schema(RecId::REmitStatement);
    let id = match g_i64(ps, "id") {
        Ok(x) => x,
        Err(e) => {
            proof {
                lemma_canon_fields_first_err(psv, fs, 0, 0, e.model());
            }
            return Err(e);
        },
    };
    let event_call = match crate::ast::dec_expr::g_c_function_call(ps, "eventCall") {
        Ok(x) => x,
        Err(e) => {
            proof {
                assert forall|m: int| 0 <= m < 1 implies canon_field(
                    psv,
                    (#[trigger] fs[m]).0,
                    fs[m].1,
                ) is Ok by {}
                lemma_canon_fields_first_err(psv, fs, 0, 1, e.model());
            }
            return Err(e);
        },
    };
    let src = match g_src(ps, "src") {
        Ok(x) => x,
        Err(e) => {
            proof {
                assert forall|m: int| 0 <= m < 2 implies canon_field(
                    psv,
                    (#[trigger] fs[m]).0,
                    fs[m].1,
                ) is Ok by {}
                lemma_canon_fields_first_err(psv, fs, 0, 2, e.model());
            }
            return Err(e);
        },
    };
    let result = EmitStatement { id, event_call, src };
    let ghost outs: Seq<(Seq<char>, Option<JsonV>)> = seq![
        ("id"@, Some(JsonV::Int(result.id as int))),
        ("eventCall"@, Some(JsonV::Obj(enc_function_call(result.event_call)))),
        ("src"@, Some(JsonV::Str(spec_encode_location(result.src)))),
    ];
    proof {
        assert forall|j: int| 0 <= j < fs.len() implies (#[trigger] outs[j]).0 == fs[j].0
            && canon_field(psv, fs[j].0, fs[j].1) == Ok::<Option<JsonV>, ErrV>(outs[j].1) by {}
        lemma_canon_fields_ok(psv, fs, outs, 0);
        assert(cat_opts(outs, 0) =~= enc_emit_statement(result)) by {
            reveal_with_fuel(cat_opts, 5);
        }
    }
    Ok(result)
}

/// Decodes a expressionStatement record from the members of an object.
pub fn decode_expression_statement(ps: &Vec<(String, JsonValue)>) -> (r: Result<ExpressionStatement, DecodeError>)
    ensures
        match r {
            Ok(x) => canon_fields(jv_pairs(ps@), schema(RecId::RExpressionStatement), 0) == Ok::<
                Seq<(Seq<char>, JsonV)>,
                ErrV,
            >(enc_expression_statement(x)),
            Err(e) => canon_fields(jv_pairs(ps@), schema(RecId::RExpressionStatement), 0) == Err::<
                Seq<(Seq<char>, JsonV)>,
                ErrV,
            >(e.model()),
        },
    decreases jv_pairs(ps@), 5int, 0int,
{
    let ghost psv = jv_pairs(ps@);
    let ghost fs = schema(RecId::RExpressionStatement);
    let id = match g_i64(ps, "id") {
        Ok(x) => x,
        Err(e) => {
            proof {
                lemma_canon_fields_first_err(psv, fs, 0, 0, e.model());
            }
            return Err(e);
        },
    };
    let expression = match crate::ast::dec_expr::g_c_expr(ps, "expression") {
        Ok(x) => x,
        Err(e) => {
            proof {
                assert forall|m: int| 0 <= m < 1 implies canon_field(
                    psv,
                    (#[trigger] fs[m]).0,
                    fs[m].1,
                ) is Ok by {}
                lemma_canon_fields_first_err(psv, fs, 0, 1, e.model());
            }
            return Err(e);
        },
    };
    let src = match g_src(ps, "src") {
        Ok(x) => x,
        Err(e) => {
            proof {
                assert forall|m: int| 0 <= m < 2 implies canon_field(
                    psv,
                    (#[trigger] fs[m]).0,
                    fs[m].1,
                ) is Ok by {}
                lemma_canon_fields_first_err(psv, fs, 0, 2, e.model());
            }
            return Err(e);
        },
    };
    let result = ExpressionStatement { id, expression, src };
    let ghost outs: Seq<(Seq<char>, Option<JsonV>)> = seq![
        ("id"@, Some(JsonV::Int(result.id as int))),
        ("expression"@, Some(enc_expr(result.expression))),
        ("src"@, Some(JsonV::Str(spec_encode_location(result.src)))),
    ];
    proof {
        assert forall|j: int| 0 <= j < fs.len() implies (#[trigger] outs[j]).0 == fs[j].0
            && canon_field(psv, fs[j].0, fs[j].1) == Ok::<Option<JsonV>, ErrV>(outs[j].1) by {}
        lemma_canon_fields_ok(psv, fs, outs, 0);
        assert(cat_opts(outs, 0) =~= enc_expression_statement(result)) by {
            reveal_with_fuel(cat_opts, 5);
        }
    }
    Ok(result)
}

/// Decodes a forStatement record from the members of an object.
pub fn decode_for_statement(ps: &Vec<(String, JsonValue)>) -> (r: Result<ForStatement, DecodeError>)
    ensures
        match r {
            Ok(x) => canon_fields(jv_pairs(ps@), schema(RecId::RForStatement), 0) == Ok::<
                Seq<(Seq<char>, JsonV)>,
                ErrV,
            >(enc_for_statement(x)),
            Err(e) => canon_fields(jv_pairs(ps@), schema(RecId::RForStatement), 0) == Err::<
                Seq<(Seq<char>, JsonV)>,
                ErrV,
            >(e.model()),
        },
    decreases jv_pairs(ps@), 5int, 0int,
{
    let ghost psv = jv_pairs(ps@);
    let ghost fs = schema(RecId::RForStatement);
    let id = match g_i64(ps, "id") {
        Ok(x) => x,
        Err(e) => {
            proof {
                lemma_canon_fields_first_err(psv, fs, 0, 0, e.model());
            }
            return Err(e);
        },
    };
    let initialization_expression = match crate::ast::dec_expr::g_oc_expr(ps, "initializationExpression") {
        Ok(x) => x,
        Err(e) => {
            proof {
                assert forall|m: int| 0 <= m < 1 implies canon_field(
                    psv,
                    (#[trigger] fs[m]).0,
                    fs[m].1,
                ) is Ok by {}
                lemma_canon_fields_first_err(psv, fs, 0, 1, e.model());
            }
            return Err(e);
        },
    };
    let condition = match crate::ast::dec_expr::g_oc_expr(ps, "condition") {
        Ok(x) => x,
        Err(e) => {
            proof {
                assert forall|m: int| 0 <= m < 2 implies canon_field(
                    psv,
                    (#[trigger] fs[m]).0,
                    fs[m].1,
                ) is Ok by {}
                lemma_canon_fields_first_err(psv, fs, 0, 2, e.model());
            }
            return Err(e);
        },
    };
    let loop_expression = match crate::ast::dec_expr::g_oc_expr(ps, "loopExpression") {
        Ok(x) => x,
        Err(e) => {
            proof {
                assert forall|m: int| 0 <= m < 3 implies canon_field(
                    psv,
                    (#[trigger] fs[m]).0,
                    fs[m].1,
                ) is Ok by {}
                lemma_canon_fields_first_err(psv, fs, 0, 3, e.model());
            }
            return Err(e);
        },
    };
    let body = match g_c_stmt(ps, "body") {
        Ok(x) => x,
        Err(e) => {
            proof {
                assert forall|m: int| 0 <= m < 4 implies canon_field(
                    psv,
                    (#[trigger] fs[m]).0,
                    fs[m].1,
                ) is Ok by {}
                lemma_canon_fields_first_err(psv, fs, 0, 4, e.model());
            }
            return Err(e);
        },
    };
    let src = match g_src(ps, "src") {
        Ok(x) => x,
        Err(e) => {
            proof {
                assert forall|m: int| 0 <= m < 5 implies canon_field(
                    psv,
                    (#[trigger] fs[m]).0,
                    fs[m].1,
                ) is Ok by {}
                lemma_canon_fields_first_err(psv, fs, 0, 5, e.model());
            }
            return Err(e);
        },
    };
    let result = ForStatement { id, initialization_expression, condition, loop_expression, body, src };
    let ghost outs: Seq<(Seq<char>, Option<JsonV>)> = seq![
        ("id"@, Some(JsonV::Int(result.id as int))),
        ("initializationExpression"@, Some(opt_expr_of(result.initialization_expression))),
        ("condition"@, Some(opt_expr_of(result.condition))),
        ("loopExpression"@, Some(opt_expr_of(result.loop_expression))),
        ("body"@, Some(enc_stmt(result.body))),
        ("src"@, Some(JsonV::Str(spec_encode_location(result.src)))),
    ];
    proof {
        assert forall|j: int| 0 <= j < fs.len() implies (#[trigger] outs[j]).0 == fs[j].0
            && canon_field(psv, fs[j].0, fs[j].1) == Ok::<Option<JsonV>, ErrV>(outs[j].1) by {}
        lemma_canon_fields_ok(psv, fs, outs, 0);
        assert(cat_opts(outs, 0) =~= enc_for_statement(result)) by {
            reveal_with_fuel(cat_opts, 8);
        }
    }
    Ok(result)
}

/// Decodes a ifStatement record from the members of an object.
pub fn decode_if_statement(ps: &Vec<(String, JsonValue)>) -> (r: Result<IfStatement, DecodeError>)
    ensures
        match r {
            Ok(x) => canon_fields(jv_pairs(ps@), schema(RecId::RIfStatement), 0) == Ok::<
                Seq<(Seq<char>, JsonV)>,
                ErrV,
            >(enc_if_statement(x)),
            Err(e) => canon_fields(jv_pairs(ps@), schema(RecId::RIfStatement), 0) == Err::<
                Seq<(Seq<char>, JsonV)>,
                ErrV,
            >(e.model()),
        },
    decreases jv_pairs(ps@), 5int, 0int,
{
    let ghost psv = jv_pairs(ps@);
    let ghost fs = schema(RecId::RIfStatement);
    let id = match g_i64(ps, "id") {
        Ok(x) => x,
        Err(e) => {
            proof {
                lemma_canon_fields_first_err(psv, fs, 0, 0, e.model());
            }
            return Err(e);
        },
    };
    let condition = match crate::ast::dec_expr::g_c_expr(ps, "condition") {
        Ok(x) => x,
        Err(e) => {
            proof {
                assert forall|m: int| 0 <= m < 1 implies canon_field(
                    psv,
                    (#[trigger] fs[m]).0,
                    fs[m].1,
                ) is Ok by {}
                lemma_canon_fields_first_err(psv, fs, 0, 1, e.model());
            }
            return Err(e);
        },
    };
    let true_body = match g_c_stmt(ps, "trueBody") {
        Ok(x) => x,
        Err(e) => {
            proof {
                assert forall|m: int| 0 <= m < 2 implies canon_field(
                    psv,
                    (#[trigger] fs[m]).0,
                    fs[m].1,
                ) is Ok by {}
                lemma_canon_fields_first_err(psv, fs, 0, 2, e.model());
            }
            return Err(e);
        },
    };
    let false_body = match g_oc_stmt(ps, "falseBody") {
        Ok(x) => x,
        Err(e) => {
            proof {
                assert forall|m: int| 0 <= m < 3 implies canon_field(
                    psv,
                    (#[trigger] fs[m]).0,
                    fs[m].1,
                ) is Ok by {}
                lemma_canon_fields_first_err(psv, fs, 0, 3, e.model());
            }
            return Err(e);
        },
    };
    let src = match g_src(ps, "src") {
        Ok(x) => x,
        Err(e) => {
            proof {
                assert forall|m: int| 0 <= m < 4 implies canon_field(
                    psv,
                    (#[trigger] fs[m]).0,
                    fs[m].1,
                ) is Ok by {}
                lemma_canon_fields_first_err(psv, fs, 0, 4, e.model());
            }
            return Err(e);
        },
    };
    let result = IfStatement { id, condition, true_body, false_body, src };
    let ghost outs: Seq<(Seq<char>, Option<JsonV>)> = seq![
        ("id"@, Some(JsonV::Int(result.id as int))),
        ("condition"@, Some(enc_expr(result.condition))),
        ("trueBody"@, Some(enc_stmt(result.true_body))),
        ("falseBody"@, Some(opt_stmt_of(result.false_body))),
        ("src"@, Some(JsonV::Str(spec_encode_location(result.src)))),
    ];
    proof {
        assert forall|j: int| 0 <= j < fs.len() implies (#[trigger] outs[j]).0 == fs[j].0
            && canon_field(psv, fs[j].0, fs[j].1) == Ok::<Option<JsonV>, ErrV>(outs[j].1) by {}
        lemma_canon_fields_ok(psv, fs, outs, 0);
        assert(cat_opts(outs, 0) =~= enc_if_statement(result)) by {
            reveal_with_fuel(cat_opts, 7);
        }
    }
    Ok(result)
}

/// Decodes a inlineAssembly record from the members of an object.
pub fn decode_inline_assembly(ps: &Vec<(String, JsonValue)>) -> (r: Result<InlineAssembly, DecodeError>)
    ensures
        match r {
            Ok(x) => canon_fields(jv_pairs(ps@), schema(RecId::RInlineAssembly), 0) == Ok::<
                Seq<(Seq<char>, JsonV)>,
                ErrV,
            >(enc_inline_assembly(x)),
            Err(e) => canon_fields(jv_pairs(ps@), schema(RecId::RInlineAssembly), 0) == Err::<
                Seq<(Seq<char>, JsonV)>,
                ErrV,
            >(e.model()),
        },
    decreases jv_pairs(ps@), 5int, 0int,
{
    let ghost psv = jv_pairs(ps@);
    let ghost fs = schema(RecId::RInlineAssembly);
    let id = match g_i64(ps, "id") {
        Ok(x) => x,
        Err(e) => {
            proof {
                lemma_canon_fields_first_err(psv, fs, 0, 0, e.model());
            }
            return Err(e);
        },
    };
    let operations = match crate::ast::dec_leaf::g_opt_free(ps, "operations") {
        Ok(x) => x,
        Err(e) => {
            proof {
                assert forall|m: int| 0 <= m < 1 implies canon_field(
                    psv,
                    (#[trigger] fs[m]).0,
                    fs[m].1,
                ) is Ok by {}
                lemma_canon_fields_first_err(psv, fs, 0, 1, e.model());
            }
            return Err(e);
        },
    };
    let external_references = match crate::ast::dec_leaf::g_oac_external_reference(ps, "externalReferences") {
        Ok(x) => x,
        Err(e) => {
            proof {
                assert forall|m: int| 0 <= m < 2 implies canon_field(
                    psv,
                    (#[trigger] fs[m]).0,
                    fs[m].1,
                ) is Ok by {}
                lemma_canon_fields_first_err(psv, fs, 0, 2, e.model());
            }
            return Err(e);
        },
    };
    let src = match g_src(ps, "src") {
        Ok(x) => x,
        Err(e) => {
            proof {
                assert forall|m: int| 0 <= m < 3 implies canon_field(
                    psv,
                    (#[trigger] fs[m]).0,
                    fs[m].1,
                ) is Ok by {}
                lemma_canon_fields_first_err(psv, fs, 0, 3, e.model());
            }
            return Err(e);
        },
    };
    let documentation = match crate::ast::dec_leaf::g_oc_doc(ps, "documentation") {
        Ok(x) => x,
        Err(e) => {
            proof {
                assert forall|m: int| 0 <= m < 4 implies canon_field(
                    psv,
                    (#[trigger] fs[m]).0,
                    fs[m].1,
                ) is Ok by {}
                lemma_canon_fields_first_err(psv, fs, 0, 4, e.model());
            }
            return Err(e);
        },
    };
    let flags = match crate::ast::dec_leaf::g_def_arr_str(ps, "flags") {
        Ok(x) => x,
        Err(e) => {
            proof {
                assert forall|m: int| 0 <= m < 5 implies canon_field(
                    psv,
                    (#[trigger] fs[m]).0,
                    fs[m].1,
                ) is Ok by {}
                lemma_canon_fields_first_err(psv, fs, 0, 5, e.model());
            }
            return Err(e);
        },
    };
    let result = InlineAssembly { id, operations, external_references, src, documentation, flags };
    let ghost outs: Seq<(Seq<char>, Option<JsonV>)> = seq![
        ("id"@, Some(JsonV::Int(result.id as int))),
        ("operations"@, Some(opt_free_of(result.operations))),
        ("externalReferences"@, Some(opt_arr_external_reference_of(result.external_references))),
        ("src"@, Some(JsonV::Str(spec_encode_location(result.src)))),
        ("documentation"@, Some(opt_doc_of(result.documentation))),
        ("flags"@, Some(JsonV::Arr(strs_of(result.flags@)))),
    ];
    proof {
        assert forall|j: int| 0 <= j < fs.len() implies (#[trigger] outs[j]).0 == fs[j].0
            && canon_field(psv, fs[j].0, fs[j].1) == Ok::<Option<JsonV>, ErrV>(outs[j].1) by {}
        lemma_canon_fields_ok(psv, fs, outs, 0);
        assert(cat_opts(outs, 0) =~= enc_inline_assembly(result)) by {
            reveal_with_fuel(cat_opts, 8);
        }
    }
    Ok(result)
}

/// Decodes a placeholderStatement record from the members of an object.
pub fn decode_placeholder_statement(ps: &Vec<(String, JsonValue)>) -> (r: Result<PlaceholderStatement, DecodeError>)
    ensures
        match r {
            Ok(x) => canon_fields(jv_pairs(ps@), schema(RecId::RPlaceholderStatement), 0) == Ok::<
                Seq<(Seq<char>, JsonV)>,
                ErrV,
            >(enc_placeholder_statement(x)),
            Err(e) => canon_fields(jv_pairs(ps@), schema(RecId::RPlaceholderStatement), 0) == Err::<
                Seq<(Seq<char>, JsonV)>,
                ErrV,
            >(e.model()),
        },
{
    let ghost psv = jv_pairs(ps@);
    let ghost fs = schema(RecId::RPlaceholderStatement);
    let id = match g_i64(ps, "id") {
        Ok(x) => x,
        Err(e) => {
            proof {
                lemma_canon_fields_first_err(psv, fs, 0, 0, e.model());
            }
            return Err(e);
        },
    };
    let src = match g_src(ps, "src") {
        Ok(x) => x,
        Err(e) => {
            proof {
                assert forall|m: int| 0 <= m < 1 implies canon_field(
                    psv,
                    (#[trigger] fs[m]).0,
                    fs[m].1,
                ) is Ok by {}
                lemma_canon_fields_first_err(psv, fs, 0, 1, e.model());
            }
            return Err(e);
        },
    };
    let result = PlaceholderStatement { id, src };
    let ghost outs: Seq<(Seq<char>, Option<JsonV>)> = seq![
        ("id"@, Some(JsonV::Int(result.id as int))),
        ("src"@, Some(JsonV::Str(spec_encode_location(result.src)))),
    ];
    proof {
        assert forall|j: int| 0 <= j < fs.len() implies (#[trigger] outs[j]).0 == fs[j].0
            && canon_field(psv, fs[j].0, fs[j].1) == Ok::<Option<JsonV>, ErrV>(outs[j].1) by {}
        lemma_canon_fields_ok(psv, fs, outs, 0);
        assert(cat_opts(outs, 0) =~= enc_placeholder_statement(result)) by {
            reveal_with_fuel(cat_opts, 4);
        }
    }
    Ok(result)
}

/// Decodes a return record from the members of an object.
pub fn decode_return_statement(ps: &Vec<(String, JsonValue)>) -> (r: Result<Return, DecodeError>)
    ensures
        match r {
            Ok(x) => canon_fields(jv_pairs(ps@), schema(RecId::RReturn), 0) == Ok::<
                Seq<(Seq<char>, JsonV)>,
                ErrV,
            >(enc_return_statement(x)),
            Err(e) => canon_fields(jv_pairs(ps@), schema(RecId::RReturn), 0) == Err::<
                Seq<(Seq<char>, JsonV)>,
                ErrV,
            >(e.model()),
        },
    decreases jv_pairs(ps@), 5int, 0int,
{
    let ghost psv = jv_pairs(ps@);
    let ghost fs = schema(RecId::RReturn);
    let id = match g_i64(ps, "id") {
        Ok(x) => x,
        Err(e) => {
            proof {
                lemma_canon_fields_first_err(psv, fs, 0, 0, e.model());
            }
            return Err(e);
        },
    };
    let function_return_parameters = match g_i64(ps, "functionReturnParameters") {
        Ok(x) => x,
        Err(e) => {
            proof {
                assert forall|m: int| 0 <= m < 1 implies canon_field(
                    psv,
                    (#[trigger] fs[m]).0,
                    fs[m].1,
                ) is Ok by {}
                lemma_canon_fields_first_err(psv, fs, 0, 1, e.model());
            }
            return Err(e);
        },
    };
    let expression = match crate::ast::dec_expr::g_oc_expr(ps, "expression") {
        Ok(x) => x,
        Err(e) => {
            proof {
                assert forall|m: int| 0 <= m < 2 implies canon_field(
                    psv,
                    (#[trigger] fs[m]).0,
                    fs[m].1,
                ) is Ok by {}
                lemma_canon_fields_first_err(psv, fs, 0, 2, e.model());
            }
            return Err(e);
        },
    };
    let src = match g_src(ps, "src") {
        Ok(x) => x,
        Err(e) => {
            proof {
                assert forall|m: int| 0 <= m < 3 implies canon_field(
                    psv,
                    (#[trigger] fs[m]).0,
                    fs[m].1,
                ) is Ok by {}
                lemma_canon_fields_first_err(psv, fs, 0, 3, e.model());
            }
            return Err(e);
        },
    };
    let result = Return { id, function_return_parameters, expression, src };
    let ghost outs: Seq<(Seq<char>, Option<JsonV>)> = seq![
        ("id"@, Some(JsonV::Int(result.id as int))),
        ("functionReturnParameters"@, Some(JsonV::Int(result.function_return_parameters as int))),
        ("expression"@, Some(opt_expr_of(result.expression))),
        ("src"@, Some(JsonV::Str(spec_encode_location(result.src)))),
    ];
    proof {
        assert forall|j: int| 0 <= j < fs.len() implies (#[trigger] outs[j]).0 == fs[j].0
            && canon_field(psv, fs[j].0, fs[j].1) == Ok::<Option<JsonV>, ErrV>(outs[j].1) by {}
        lemma_canon_fields_ok(psv, fs, outs, 0);
        assert(cat_opts(outs, 0) =~= enc_return_statement(result)) by {
            reveal_with_fuel(cat_opts, 6);
        }
    }
    Ok(result)
}

/// Decodes a revertStatement record from the members of an object.
pub fn decode_revert_statement(ps: &Vec<(String, JsonValue)>) -> (r: Result<RevertStatement, DecodeError>)
    ensures
        match r {
            Ok(x) => canon_fields(jv_pairs(ps@), schema(RecId::RRevertStatement), 0) == Ok::<
                Seq<(Seq<char>, JsonV)>,
                ErrV,
            >(enc_revert_statement(x)),
            Err(e) => canon_fields(jv_pairs(ps@), schema(RecId::RRevertStatement), 0) == Err::<
                Seq<(Seq<char>, JsonV)>,
                ErrV,
            >(e.model()),
        },
    decreases jv_pairs(ps@), 5int, 0int,
{
    let ghost psv = jv_pairs(ps@);
    let ghost fs = schema(RecId::RRevertStatement);
    let id = match g_i64(ps, "id") {
        Ok(x) => x,
        Err(e) => {
            proof {
                lemma_canon_fields_first_err(psv, fs, 0, 0, e.model());
            }
            return Err(e);
        },
    };
    let error_call = match crate::ast::dec_expr::g_c_function_call(ps, "errorCall") {
        Ok(x) => x,
        Err(e) => {
            proof {
                assert forall|m: int| 0 <= m < 1 implies canon_field(
                    psv,
                    (#[trigger] fs[m]).0,
                    fs[m].1,
                ) is Ok by {}
                lemma_canon_fields_first_err(psv, fs, 0, 1, e.model());
            }
            return Err(e);
        },
    };
    let src = match g_src(ps, "src") {
        Ok(x) => x,
        Err(e) => {
            proof {
                assert forall|m: int| 0 <= m < 2 implies canon_field(
                    psv,
                    (#[trigger] fs[m]).0,
                    fs[m].1,
                ) is Ok by {}
                lemma_canon_fields_first_err(psv, fs, 0, 2, e.model());
            }
            return Err(e);
        },
    };
    let result = RevertStatement { id, error_call, src };
    let ghost outs: Seq<(Seq<char>, Option<JsonV>)> = seq![
        ("id"@, Some(JsonV::Int(result.id as int))),
        ("errorCall"@, Some(JsonV::Obj(enc_function_call(result.error_call)))),
        ("src"@, Some(JsonV::Str(spec_encode_location(result.src)))),
    ];
    proof {
        assert forall|j: int| 0 <= j < fs.len() implies (#[trigger] outs[j]).0 == fs[j].0
            && canon_field(psv, fs[j].0, fs[j].1) == Ok::<Option<JsonV>, ErrV>(outs[j].1) by {}
        lemma_canon_fields_ok(psv, fs, outs, 0);
        assert(cat_opts(outs, 0) =~= enc_revert_statement(result)) by {
            reveal_with_fuel(cat_opts, 5);
        }
    }
    Ok(result)
}

/// Decodes a tryCatchClause record from the members of an object.
pub fn decode_try_catch_clause(ps: &Vec<(String, JsonValue)>) -> (r: Result<TryCatchClause, DecodeError>)
    ensures
        match r {
            Ok(x) => canon_fields(jv_pairs(ps@), schema(RecId::RTryCatchClause), 0) == Ok::<
                Seq<(Seq<char>, JsonV)>,
                ErrV,
            >(enc_try_catch_clause(x)),
            Err(e) => canon_fields(jv_pairs(ps@), schema(RecId::RTryCatchClause), 0) == Err::<
                Seq<(Seq<char>, JsonV)>,
                ErrV,
            >(e.model()),
        },
    decreases jv_pairs(ps@), 5int, 0int,
{
    let ghost psv = jv_pairs(ps@);
    let ghost fs = schema(RecId::RTryCatchClause);
    let id = match g_i64(ps, "id") {
        Ok(x) => x,
        Err(e) => {
            proof {
                lemma_canon_fields_first_err(psv, fs, 0, 0, e.model());
            }
            return Err(e);
        },
    };
    let kind = match g_str(ps, "kind") {
        Ok(x) => x,
        Err(e) => {
            proof {
                assert forall|m: int| 0 <= m < 1 implies canon_field(
                    psv,
                    (#[trigger] fs[m]).0,
                    fs[m].1,
                ) is Ok by {}
                lemma_canon_fields_first_err(psv, fs, 0, 1, e.model());
            }
            return Err(e);
        },
    };
    let error_name = match g_opt_str(ps, "errorName") {
        Ok(x) => x,
        Err(e) => {
            proof {
                assert forall|m: int| 0 <= m < 2 implies canon_field(
                    psv,
                    (#[trigger] fs[m]).0,
                    fs[m].1,
                ) is Ok by {}
                lemma_canon_fields_first_err(psv, fs, 0, 2, e.model());
            }
            return Err(e);
        },
    };
    let parameters = match crate::ast::dec_decl::g_oc_parameter_list(ps, "parameters") {
        Ok(x) => x,
        Err(e) => {
            proof {
                assert forall|m: int| 0 <= m < 3 implies canon_field(
                    psv,
                    (#[trigger] fs[m]).0,
                    fs[m].1,
                ) is Ok by {}
                lemma_canon_fields_first_err(psv, fs, 0, 3, e.model());
            }
            return Err(e);
        },
    };
    let block = match g_c_block(ps, "block") {
        Ok(x) => x,
        Err(e) => {
            proof {
                assert forall|m: int| 0 <= m < 4 implies canon_field(
                    psv,
                    (#[trigger] fs[m]).0,
                    fs[m].1,
                ) is Ok by {}
                lemma_canon_fields_first_err(psv, fs, 0, 4, e.model());
            }
            return Err(e);
        },
    };
    let src = match g_src(ps, "src") {
        Ok(x) => x,
        Err(e) => {
            proof {
                assert forall|m: int| 0 <= m < 5 implies canon_field(
                    psv,
                    (#[trigger] fs[m]).0,
                    fs[m].1,
                ) is Ok by {}
                lemma_canon_fields_first_err(psv, fs, 0, 5, e.model());
            }
            return Err(e);
        },
    };
    let result = TryCatchClause { id, kind, error_name, parameters, block, src };
    let ghost outs: Seq<(Seq<char>, Option<JsonV>)> = seq![
        ("id"@, Some(JsonV::Int(result.id as int))),
        ("kind"@, Some(JsonV::Str(result.kind@))),
        ("errorName"@, Some(opt_str_of(result.error_name))),
        ("parameters"@, Some(opt_parameter_list_of(result.parameters))),
        ("block"@, Some(JsonV::Obj(enc_block(result.block)))),
        ("src"@, Some(JsonV::Str(spec_encode_location(result.src)))),
    ];
    proof {
        assert forall|j: int| 0 <= j < fs.len() implies (#[trigger] outs[j]).0 == fs[j].0
            && canon_field(psv, fs[j].0, fs[j].1) == Ok::<Option<JsonV>, ErrV>(outs[j].1) by {}
        lemma_canon_fields_ok(psv, fs, outs, 0);
        assert(cat_opts(outs, 0) =~= enc_try_catch_clause(result)) by {
            reveal_with_fuel(cat_opts, 8);
        }
    }
    Ok(result)
}

/// Decodes a tryStatement record from the members of an object.
pub fn decode_try_statement(ps: &Vec<(String, JsonValue)>) -> (r: Result<TryStatement, DecodeError>)
    ensures
        match r {
            Ok(x) => canon_fields(jv_pairs(ps@), schema(RecId::RTryStatement), 0) == Ok::<
                Seq<(Seq<char>, JsonV)>,
                ErrV,
            >(enc_try_statement(x)),
            Err(e) => canon_fields(jv_pairs(ps@), schema(RecId::RTryStatement), 0) == Err::<
                Seq<(Seq<char>, JsonV)>,
                ErrV,
            >(e.model()),
        },
    decreases jv_pairs(ps@), 5int, 0int,
{
    let ghost psv = jv_pairs(ps@);
    let ghost fs = schema(RecId::RTryStatement);
    let id = match g_i64(ps, "id") {
        Ok(x) => x,
        Err(e) => {
            proof {
                lemma_canon_fields_first_err(psv, fs, 0, 0, e.model());
            }
            return Err(e);
        },
    };
    let expression = match crate::ast::dec_expr::g_c_expr(ps, "expression") {
        Ok(x) => x,
        Err(e) => {
            proof {
                assert forall|m: int| 0 <= m < 1 implies canon_field(
                    psv,
                    (#[trigger] fs[m]).0,
                    fs[m].1,
                ) is Ok by {}
                lemma_canon_fields_first_err(psv, fs, 0, 1, e.model());
            }
            return Err(e);
        },
    };
    let return_parameters = match crate::ast::dec_decl::g_c_parameter_list(ps, "returnParameters") {
        Ok(x) => x,
        Err(e) => {
            proof {
                assert forall|m: int| 0 <= m < 2 implies canon_field(
                    psv,
                    (#[trigger] fs[m]).0,
                    fs[m].1,
                ) is Ok by {}
                lemma_canon_fields_first_err(psv, fs, 0, 2, e.model());
            }
            return Err(e);
        },
    };
    let clauses = match g_ac_try_catch_clause(ps, "clauses") {
        Ok(x) => x,
        Err(e) => {
            proof {
                assert forall|m: int| 0 <= m < 3 implies canon_field(
                    psv,
                    (#[trigger] fs[m]).0,
                    fs[m].1,
                ) is Ok by {}
                lemma_canon_fields_first_err(psv, fs, 0, 3, e.model());
            }
            return Err(e);
        },
    };
    let src = match g_src(ps, "src") {
        Ok(x) => x,
        Err(e) => {
            proof {
                assert forall|m: int| 0 <= m < 4 implies canon_field(
                    psv,
                    (#[trigger] fs[m]).0,
                    fs[m].1,
                ) is Ok by {}
                lemma_canon_fields_first_err(psv, fs, 0, 4, e.model());
            }
            return Err(e);
        },
    };
    let result = TryStatement { id, expression, return_parameters, clauses, src };
    let ghost outs: Seq<(Seq<char>, Option<JsonV>)> = seq![
        ("id"@, Some(JsonV::Int(result.id as int))),
        ("expression"@, Some(enc_expr(result.expression))),
        ("returnParameters"@, Some(JsonV::Obj(enc_parameter_list(result.return_parameters)))),
        ("clauses"@, Some(JsonV::Arr(seq_try_catch_clause_of(result.clauses@)))),
        ("src"@, Some(JsonV::Str(spec_encode_location(result.src)))),
    ];
    proof {
        assert forall|j: int| 0 <= j < fs.len() implies (#[trigger] outs[j]).0 == fs[j].0
            && canon_field(psv, fs[j].0, fs[j].1) == Ok::<Option<JsonV>, ErrV>(outs[j].1) by {}
        lemma_canon_fields_ok(psv, fs, outs, 0);
        assert(cat_opts(outs, 0) =~= enc_try_statement(result)) by {
            reveal_with_fuel(cat_opts, 7);
        }
    }
    Ok(result)
}

/// Decodes a variableDeclarationStatement record from the members of an object.
pub fn decode_variable_declaration_statement(ps: &Vec<(String, JsonValue)>) -> (r: Result<VariableDeclarationStatement, DecodeError>)
    ensures
        match r {
            Ok(x) => canon_fields(jv_pairs(ps@), schema(RecId::RVariableDeclarationStatement), 0) == Ok::<
                Seq<(Seq<char>, JsonV)>,
                ErrV,
            >(enc_variable_declaration_statement(x)),
            Err(e) => canon_fields(jv_pairs(ps@), schema(RecId::RVariableDeclarationStatement), 0) == Err::<
                Seq<(Seq<char>, JsonV)>,
                ErrV,
            >(e.model()),
        },
    decreases jv_pairs(ps@), 5int, 0int,
{
    let ghost psv = jv_pairs(ps@);
    let ghost fs = schema(RecId::RVariableDeclarationStatement);
    let id = match g_i64(ps, "id") {
        Ok(x) => x,
        Err(e) => {
            proof {
                lemma_canon_fields_first_err(psv, fs, 0, 0, e.model());
            }
            return Err(e);
        },
    };
    let assignments = match crate::ast::dec_leaf::g_arr_opt_i64(ps, "assignments") {
        Ok(x) => x,
        Err(e) => {
            proof {
                assert forall|m: int| 0 <= m < 1 implies canon_field(
                    psv,
                    (#[trigger] fs[m]).0,
                    fs[m].1,
                ) is Ok by {}
                lemma_canon_fields_first_err(psv, fs, 0, 1, e.model());
            }
            return Err(e);
        },
    };
    let declarations = match crate::ast::dec_decl::g_aoc_variable_declaration(ps, "declarations") {
        Ok(x) => x,
        Err(e) => {
            proof {
                assert forall|m: int| 0 <= m < 2 implies canon_field(
                    psv,
                    (#[trigger] fs[m]).0,
                    fs[m].1,
                ) is Ok by {}
                lemma_canon_fields_first_err(psv, fs, 0, 2, e.model());
            }
            return Err(e);
        },
    };
    let initial_value = match crate::ast::dec_expr::g_oc_expr(ps, "initialValue") {
        Ok(x) => x,
        Err(e) => {
            proof {
                assert forall|m: int| 0 <= m < 3 implies canon_field(
                    psv,
                    (#[trigger] fs[m]).0,
                    fs[m].1,
                ) is Ok by {}
                lemma_canon_fields_first_err(psv, fs, 0, 3, e.model());
            }
            return Err(e);
        },
    };
    let src = match g_src(ps, "src") {
        Ok(x) => x,
        Err(e) => {
            proof {
                assert forall|m: int| 0 <= m < 4 implies canon_field(
                    psv,
                    (#[trigger] fs[m]).0,
                    fs[m].1,
                ) is Ok by {}
                lemma_canon_fields_first_err(psv, fs, 0, 4, e.model());
            }
            return Err(e);
        },
    };
    let documentation = match crate::ast::dec_leaf::g_oc_doc(ps, "documentation") {
        Ok(x) => x,
        Err(e) => {
            proof {
                assert forall|m: int| 0 <= m < 5 implies canon_field(
                    psv,
                    (#[trigger] fs[m]).0,
                    fs[m].1,
                ) is Ok by {}
                lemma_canon_fields_first_err(psv, fs, 0, 5, e.model());
            }
            return Err(e);
        },
    };
    let result = VariableDeclarationStatement { id, assignments, declarations, initial_value, src, documentation };
    let ghost outs: Seq<(Seq<char>, Option<JsonV>)> = seq![
        ("id"@, Some(JsonV::Int(result.id as int))),
        ("assignments"@, Some(JsonV::Arr(opt_ints_of(result.assignments@)))),
        ("declarations"@, Some(JsonV::Arr(seq_opt_variable_declaration_of(result.declarations@)))),
        ("initialValue"@, Some(opt_expr_of(result.initial_value))),
        ("src"@, Some(JsonV::Str(spec_encode_location(result.src)))),
        ("documentation"@, Some(opt_doc_of(result.documentation))),
    ];
    proof {
        assert forall|j: int| 0 <= j < fs.len() implies (#[trigger] outs[j]).0 == fs[j].0
            && canon_field(psv, fs[j].0, fs[j].1) == Ok::<Option<JsonV>, ErrV>(outs[j].1) by {}
        lemma_canon_fields_ok(psv, fs, outs, 0);
        assert(cat_opts(outs, 0) =~= enc_variable_declaration_statement(result)) by {
            reveal_with_fuel(cat_opts, 8);
        }
    }
    Ok(result)
}

/// Decodes a whileStatement record from the members of an object.
pub fn decode_while_statement(ps: &Vec<(String, JsonValue)>) -> (r: Result<WhileStatement, DecodeError>)
    ensures
        match r {
            Ok(x) => canon_fields(jv_pairs(ps@), schema(RecId::RWhileStatement), 0) == Ok::<
                Seq<(Seq<char>, JsonV)>,
                ErrV,
            >(enc_while_statement(x)),
            Err(e) => canon_fields(jv_pairs(ps@), schema(RecId::RWhileStatement), 0) == Err::<
                Seq<(Seq<char>, JsonV)>,
                ErrV,
            >(e.model()),
        },
    decreases jv_pairs(ps@), 5int, 0int,
{
    let ghost psv = jv_pairs(ps@);
    let ghost fs = schema(RecId::RWhileStatement);
    let id = match g_i64(ps, "id") {
        Ok(x) => x,
        Err(e) => {
            proof {
                lemma_canon_fields_first_err(psv, fs, 0, 0, e.model());
            }
            return Err(e);
        },
    };
    let condition = match crate::ast::dec_expr::g_c_expr(ps, "condition") {
        Ok(x) => x,
        Err(e) => {
            proof {
                assert forall|m: int| 0 <= m < 1 implies canon_field(
                    psv,
                    (#[trigger] fs[m]).0,
                    fs[m].1,
                ) is Ok by {}
                lemma_canon_fields_first_err(psv, fs, 0, 1, e.model());
            }
            return Err(e);
        },
    };
    let body = match g_c_stmt(ps, "body") {
        Ok(x) => x,
        Err(e) => {
            proof {
                assert forall|m: int| 0 <= m < 2 implies canon_field(
                    psv,
                    (#[trigger] fs[m]).0,
                    fs[m].1,
                ) is Ok by {}
                lemma_canon_fields_first_err(psv, fs, 0, 2, e.model());
            }
            return Err(e);
        },
    };
    let src = match g_src(ps, "src") {
        Ok(x) => x,
        Err(e) => {
            proof {
                assert forall|m: int| 0 <= m < 3 implies canon_field(
                    psv,
                    (#[trigger] fs[m]).0,
                    fs[m].1,
                ) is Ok by {}
                lemma_canon_fields_first_err(psv, fs, 0, 3, e.model());
            }
            return Err(e);
        },
    };
    let result = WhileStatement { id, condition, body, src };
    let ghost outs: Seq<(Seq<char>, Option<JsonV>)> = seq![
        ("id"@, Some(JsonV::Int(result.id as int))),
        ("condition"@, Some(enc_expr(result.condition))),
        ("body"@, Some(enc_stmt(result.body))),
        ("src"@, Some(JsonV::Str(spec_encode_location(result.src)))),
    ];
    proof {
        assert forall|j: int| 0 <= j < fs.len() implies (#[trigger] outs[j]).0 == fs[j].0
            && canon_field(psv, fs[j].0, fs[j].1) == Ok::<Option<JsonV>, ErrV>(outs[j].1) by {}
        lemma_canon_fields_ok(psv, fs, outs, 0);
        assert(cat_opts(outs, 0) =~= enc_while_statement(result)) by {
            reveal_with_fuel(cat_opts, 6);
        }
    }
    Ok(result)
}

/// Decodes a statement node: the discriminator selects the record; an
/// unrecognized discriminator is reported as such, distinct from a
/// malformed known kind.
pub fn decode_statement(v: &JsonValue) -> (r: Result<Statement, DecodeError>)
    ensures
        match r {
            Ok(x) => canon_node(jv(*v), Fam::Stmt) == Ok::<JsonV, ErrV>(enc_stmt(x)),
            Err(e) => canon_node(jv(*v), Fam::Stmt) == Err::<JsonV, ErrV>(e.model()),
        },
    decreases jv(*v), 5int, 1int,
{
    let ps = match v {
        JsonValue::Obj(ps) => ps,
        _ => {
            return Err(DecodeError::NotAnObject);
        },
    };
    proof {
        assert(jv(*v) == JsonV::Obj(jv_pairs(ps@)));
    }
    let tag = match obj_get(ps, "nodeType") {
        None => {
            return Err(DecodeError::Missing("nodeType".to_owned()));
        },
        Some(tv) => match tv {
            JsonValue::Str(s) => s,
            _ => {
                return Err(DecodeError::Invalid("nodeType".to_owned()));
            },
        },
    };
    if str_eq(tag.as_str(), "Block") {
        match decode_block(ps) {
            Ok(x) => {
                proof {
                    assert(canon_node(jv(*v), Fam::Stmt) matches Ok(c) && c =~~= enc_stmt(
                        Statement::Block(Box::new(x)),
                    ));
                }
                Ok(Statement::Block(Box::new(x)))
            },
            Err(e) => Err(e),
        }
    } else if str_eq(tag.as_str(), "Break") {
        match decode_break_statement(ps) {
            Ok(x) => {
                proof {
                    assert(canon_node(jv(*v), Fam::Stmt) matches Ok(c) && c =~~= enc_stmt(
                        Statement::Break(Box::new(x)),
                    ));
                }
                Ok(Statement::Break(Box::new(x)))
            },
            Err(e) => Err(e),
        }
    } else if str_eq(tag.as_str(), "Continue") {
        match decode_continue_statement(ps) {
            Ok(x) => {
                proof {
                    assert(canon_node(jv(*v), Fam::Stmt) matches Ok(c) && c =~~= enc_stmt(
                        Statement::Continue(Box::new(x)),
                    ));
                }
                Ok(Statement::Continue(Box::new(x)))
            },
            Err(e) => Err(e),
        }
    } else if str_eq(tag.as_str(), "DoWhileStatement") {
        match decode_do_while_statement(ps) {
            Ok(x) => {
                proof {
                    assert(canon_node(jv(*v), Fam::Stmt) matches Ok(c) && c =~~= enc_stmt(
                        Statement::DoWhileStatement(Box::new(x)),
                    ));
                }
                Ok(Statement::DoWhileStatement(Box::new(x)))
            },
            Err(e) => Err(e),
        }
    } else if str_eq(tag.as_str(), "EmitStatement") {
        match decode_emit_statement(ps) {
            Ok(x) => {
                proof {
                    assert(canon_node(jv(*v), Fam::Stmt) matches Ok(c) && c =~~= enc_stmt(
                        Statement::EmitStatement(Box::new(x)),
                    ));
                }
                Ok(Statement::EmitStatement(Box::new(x)))
            },
            Err(e) => Err(e),
        }
    } else if str_eq(tag.as_str(), "ExpressionStatement") {
        match decode_expression_statement(ps) {
            Ok(x) => {
                proof {
                    assert(canon_node(jv(*v), Fam::Stmt) matches Ok(c) && c =~~= enc_stmt(
                        Statement::ExpressionStatement(Box::new(x)),
                    ));
                }
                Ok(Statement::ExpressionStatement(Box::new(x)))
            },
            Err(e) => Err(e),
        }
    } else if str_eq(tag.as_str(), "ForStatement") {
        match decode_for_statement(ps) {
            Ok(x) => {
                proof {
                    assert(canon_node(jv(*v), Fam::Stmt) matches Ok(c) && c =~~= enc_stmt(
                        Statement::ForStatement(Box::new(x)),
                    ));
                }
                Ok(Statement::ForStatement(Box::new(x)))
            },
            Err(e) => Err(e),
        }
    } else if str_eq(tag.as_str(), "IfStatement") {
        match decode_if_statement(ps) {
            Ok(x) => {
                proof {
                    assert(canon_node(jv(*v), Fam::Stmt) matches Ok(c) && c =~~= enc_stmt(
                        Statement::IfStatement(Box::new(x)),
                    ));
                }
                Ok(Statement::IfStatement(Box::new(x)))
            },
            Err(e) => Err(e),
        }
    } else if str_eq(tag.as_str(), "InlineAssembly") {
        match decode_inline_assembly(ps) {
            Ok(x) => {
                proof {
                    assert(canon_node(jv(*v), Fam::Stmt) matches Ok(c) && c =~~= enc_stmt(
                        Statement::InlineAssembly(Box::new(x)),
                    ));
                }
                Ok(Statement::InlineAssembly(Box::new(x)))
            },
            Err(e) => Err(e),
        }
    } else if str_eq(tag.as_str(), "PlaceholderStatement") {
        match decode_placeholder_statement(ps) {
            Ok(x) => {
                proof {
                    assert(canon_node(jv(*v), Fam::Stmt) matches Ok(c) && c =~~= enc_stmt(
                        Statement::PlaceholderStatement(Box::new(x)),
                    ));
                }
                Ok(Statement::PlaceholderStatement(Box::new(x)))
            },
            Err(e) => Err(e),
        }
    } else if str_eq(tag.as_str(), "Return") {
        match decode_return_statement(ps) {
            Ok(x) => {
                proof {
                    assert(canon_node(jv(*v), Fam::Stmt) matches Ok(c) && c =~~= enc_stmt(
                        Statement::Return(Box::new(x)),
                    ));
                }
                Ok(Statement::Return(Box::new(x)))
            },
            Err(e) => Err(e),
        }
    } else if str_eq(tag.as_str(), "RevertStatement") {
        match decode_revert_statement(ps) {
            Ok(x) => {
                proof {
                    assert(canon_node(jv(*v), Fam::Stmt) matches Ok(c) && c =~~= enc_stmt(
                        Statement::RevertStatement(Box::new(x)),
                    ));
                }
                Ok(Statement::RevertStatement(Box::new(x)))
            },
            Err(e) => Err(e),
        }
    } else if str_eq(tag.as_str(), "TryStatement") {
        match decode_try_statement(ps) {
            Ok(x) => {
                proof {
                    assert(canon_node(jv(*v), Fam::Stmt) matches Ok(c) && c =~~= enc_stmt(
                        Statement::TryStatement(Box::new(x)),
                    ));
                }
                Ok(Statement::TryStatement(Box::new(x)))
            },
            Err(e) => Err(e),
        }
    } else if str_eq(tag.as_str(), "UncheckedBlock") {
        match decode_unchecked_block(ps) {
            Ok(x) => {
                proof {
                    assert(canon_node(jv(*v), Fam::Stmt) matches Ok(c) && c =~~= enc_stmt(
                        Statement::UncheckedBlock(Box::new(x)),
                    ));
                }
                Ok(Statement::UncheckedBlock(Box::new(x)))
            },
            Err(e) => Err(e),
        }
    } else if str_eq(tag.as_str(), "VariableDeclarationStatement") {
        match decode_variable_declaration_statement(ps) {
            Ok(x) => {
                proof {
                    assert(canon_node(jv(*v), Fam::Stmt) matches Ok(c) && c =~~= enc_stmt(
                        Statement::VariableDeclarationStatement(Box::new(x)),
                    ));
                }
                Ok(Statement::VariableDeclarationStatement(Box::new(x)))
            },
            Err(e) => Err(e),
        }
    } else if str_eq(tag.as_str(), "WhileStatement") {
        match decode_while_statement(ps) {
            Ok(x) => {
                proof {
                    assert(canon_node(jv(*v), Fam::Stmt) matches Ok(c) && c =~~= enc_stmt(
                        Statement::WhileStatement(Box::new(x)),
                    ));
                }
                Ok(Statement::WhileStatement(Box::new(x)))
            },
            Err(e) => Err(e),
        }
    } else {
        Err(DecodeError::UnknownDiscriminator(tag.clone()))
    }
}

} // verus!
