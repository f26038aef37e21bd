//! Decoders for the declaration records, the top-level and contract-member
//! families, and the document root.

use vstd::prelude::*;

use crate::ast::canon::{
    Child, DecodeError, EnumId, ErrV, Fam, FieldKind, RecId, canon_doc, canon_elems,
    canon_field, canon_fields, canon_members, canon_node, canon_rec, canon_value, cat_opts,
    enum_ok, fam_rec, idx_path, lemma_canon_fields_err_shape, lemma_canon_fields_first_err,
    lemma_canon_fields_ok, lemma_canon_value_arr_unfold, lemma_canon_value_child_unfold,
    lemma_canon_value_map_unfold, lemma_canon_value_opt_arr_unfold,
    lemma_canon_value_opt_child_unfold, prefix_err, prefix_field, prefix_index, rec_tag,
    schema,
};
use crate::ast::fields::{
    field_matches, g_arr_i64, g_bool, g_bool_or_int, g_bool_prefix_alias, g_def_arr_i64,
    g_elem, g_i64, g_opt_arr_i64, g_opt_bool, g_opt_i64, g_opt_str, g_opt_str_omit, g_src,
    g_str, ints_of, lemma_canon_elems_err, lemma_canon_elems_ok, map_ints_of, omit_str_of,
    opt_arr_ints_of, opt_bool_of, opt_int_of, opt_ints_of, opt_str_of, opt_strs_of, strs_of,
};
use crate::ast::shape::{
    enc_array_type_name, enc_assignment, enc_binary_operation, enc_block, enc_break_statement,
    enc_common_type, enc_conditional, enc_continue_statement, enc_contract_definition,
    enc_contract_node, enc_do_while_statement, enc_doc, enc_documentation_custom,
    enc_documentation_parameter, enc_documentation_return, enc_elementary_type_name,
    enc_elementary_type_name_expression, enc_emit_statement, enc_enum_definition,
    enc_enum_value, enc_error_definition, enc_event_definition, enc_expr,
    enc_expression_statement, enc_external_reference, enc_for_statement, enc_function_call,
    enc_function_call_expression, enc_function_call_options, enc_function_definition,
    enc_function_type_name, enc_identifier, enc_identifier_path, enc_if_statement,
    enc_import_directive, enc_index_access, enc_inheritance_specifier, enc_inline_assembly,
    enc_literal, enc_mapping, enc_member_access, enc_modifier_definition,
    enc_modifier_invocation, enc_new_expression, enc_override_specifier, enc_parameter_list,
    enc_placeholder_statement, enc_pragma_directive, enc_return_statement,
    enc_revert_statement, enc_source_unit, enc_source_unit_node, enc_stmt,
    enc_struct_definition, enc_structured_documentation, enc_symbol_alias,
    enc_try_catch_clause, enc_try_statement, enc_tuple_expression, enc_type_descriptions,
    enc_type_name, enc_unary_operation, enc_unchecked_block, enc_user_defined_type_name,
    enc_user_defined_value_type_definition, enc_using_for_directive, enc_variable_declaration,
    enc_variable_declaration_statement, enc_while_statement, lemma_seq_contract_node_of,
    lemma_seq_expr_of, lemma_seq_inheritance_specifier_of, lemma_seq_modifier_invocation_of,
    lemma_seq_opt_expr_of, lemma_seq_opt_variable_declaration_of,
    lemma_seq_source_unit_node_of, lemma_seq_stmt_of, lemma_seq_try_catch_clause_of,
    lemma_seq_type_name_of, lemma_seq_variable_declaration_of, opt_arr_expr_of,
    opt_arr_external_reference_of, opt_arr_inheritance_specifier_of,
    opt_arr_type_descriptions_of, opt_block_of, opt_doc_of, opt_expr_of, opt_free_of,
    opt_identifier_path_of, opt_override_specifier_of, opt_parameter_list_of, opt_spell_mik_of,
    opt_spell_mut_of, opt_spell_sl_of, opt_spell_sm_of, opt_stmt_of, opt_type_name_of,
    opt_user_defined_type_name_of, opt_variable_declaration_of, seq_contract_node_of,
    seq_documentation_custom_of, seq_documentation_parameter_of, seq_documentation_return_of,
    seq_enum_value_of, seq_expr_of, seq_external_reference_of, seq_identifier_path_of,
    seq_inheritance_specifier_of, seq_modifier_invocation_of, seq_opt_expr_of,
    seq_opt_variable_declaration_of, seq_source_unit_node_of, seq_stmt_of, seq_symbol_alias_of,
    seq_try_catch_clause_of, seq_type_descriptions_of, seq_type_name_of,
    seq_variable_declaration_of, spell_ck, spell_fk, spell_lit, spell_mik, spell_mut, spell_sl,
    spell_sm, spell_vis,
};
use crate::ast::common::spec_encode_location;
use crate::ast::types::spec_encode_elementary;
use crate::ast::{
    ArrayTypeName, Assignment, BinaryOperation, Block, Break, CommonType, Conditional,
    Continue, ContractDefinition, ContractDefinitionNode, ContractKind, DoWhileStatement,
    Documentation, ElementaryType, ElementaryTypeName, ElementaryTypeNameExpression,
    EmitStatement, EnumDefinition, EnumValue, ErrorDefinition, EventDefinition, Expression,
    ExpressionStatement, ExternalReference, ForStatement, FunctionCall, FunctionCallExpression,
    FunctionCallOptions, FunctionDefinition, FunctionKind, FunctionTypeName, Identifier,
    IdentifierPath, IfStatement, ImportDirective, IndexAccess, InheritanceSpecifier,
    InlineAssembly, Literal, LiteralKind, Mapping, MemberAccess, ModifierDefinition,
    ModifierInvocation, ModifierInvocationKind, Mutability, NewExpression, OverrideSpecifier,
    ParameterList, PlaceholderStatement, PragmaDirective, Return, RevertStatement,
    SourceLocation, SourceUnit, SourceUnitNode, StateMutability, Statement, StorageLocation,
    StructDefinition, StructuredDocumentation, StructuredDocumentationCustom,
    StructuredDocumentationParameter, StructuredDocumentationReturn, SymbolAlias,
    TryCatchClause, TryStatement, TupleExpression, TypeDescriptions, TypeName, UnaryOperation,
    UncheckedBlock, UserDefinedTypeName, UserDefinedValueTypeDefinition, UsingForDirective,
    VariableDeclaration, VariableDeclarationStatement, Visibility, WhileStatement,
};
use crate::json::{
    clone_json, jv, jv_lookup, jv_pairs, jv_seq, lemma_jv_pairs, lemma_jv_seq, obj_get, str_eq,
    JsonV, JsonValue,
};

verus! {

/// Decodes the elements of an array of contract node members.
pub(crate) fn core_arr_contract_node(elems: &Vec<JsonValue>) -> (r: Result<Vec<ContractDefinitionNode>, DecodeError>)
    ensures
        match r {
            Ok(xs) => canon_elems(jv_seq(elems@), 0, FieldKind::KChild(Child::CFam(Fam::Contract))) == Ok::<Seq<JsonV>, ErrV>(seq_contract_node_of(xs@)),
            Err(e) => canon_elems(jv_seq(elems@), 0, FieldKind::KChild(Child::CFam(Fam::Contract))) == Err::<Seq<JsonV>, ErrV>(e.model()),
        },
    decreases jv_seq(elems@), 6int, 0int,
{
    proof {
        reveal(crate::ast::canon::canon_value);
        reveal(crate::ast::canon::canon_field);
    }
    let ghost s = jv_seq(elems@);
    let ghost ek = FieldKind::KChild(Child::CFam(Fam::Contract));
    proof {
        lemma_jv_seq(elems@);
    }
    let n = elems.len();
    let mut out: Vec<ContractDefinitionNode> = Vec::new();
    let mut i: usize = 0;
    while i < n
        invariant
            i <= n,
            n == elems@.len(),
            s == jv_seq(elems@),
            s.len() == n,
            forall|j: int| 0 <= j < n ==> s[j] == jv(elems@[j]),
            out@.len() == i,
            forall|j: int| 0 <= j < i ==> canon_value(#[trigger] s[j], ek) == Ok::<JsonV, ErrV>(
                enc_contract_node(out@[j]),
            ),
            ek == FieldKind::KChild(Child::CFam(Fam::Contract)),
        decreases n - i,
    {
        let child = &elems[i];
        proof {
            assert(s[i as int] == jv(*child));
            assert(decreases_to!(s => s[i as int]));
        }
        match decode_contract_node(child) {
            Ok(x) => {
                out.push(x);
                proof {
                    lemma_canon_value_child_unfold(s[i as int], Child::CFam(Fam::Contract));
                    
                    assert(canon_value(s[i as int], ek) == Ok::<JsonV, ErrV>(enc_contract_node(x)));
                }
            },
            Err(e) => {
                proof {
                    lemma_canon_value_child_unfold(s[i as int], Child::CFam(Fam::Contract));
                    
                    crate::ast::dec_leaf::lemma_canon_node_err_shape(jv(*child), Fam::Contract);
                    lemma_canon_elems_err(s, i as int, ek);
                    assert(prefix_err(idx_path(i as int), canon_value(s[i as int], ek)->Err_0)
                        == prefix_err(idx_path(i as int), e.model()));
                }
                return Err(prefix_index(i, e));
            },
        }
        i += 1;
    }
    proof {
        lemma_canon_elems_ok(s, ek);
        let cs = canon_elems(s, 0, ek)->Ok_0;
        crate::ast::shape::lemma_seq_contract_node_of(out@);
        assert forall|j: int| 0 <= j < n implies cs[j] == seq_contract_node_of(out@)[j] by {
            assert(canon_value(s[j], ek) == Ok::<JsonV, ErrV>(enc_contract_node(out@[j])));
        }
        assert(cs =~= seq_contract_node_of(out@));
    }
    Ok(out)
}

/// Reads an array-of-contract node member that is empty when absent.
pub(crate) fn g_dac_contract_node(ps: &Vec<(String, JsonValue)>, k: &str) -> (r: Result<Vec<ContractDefinitionNode>, DecodeError>)
    ensures
        field_matches(r, ps@, k@, FieldKind::KDefArrChild(Child::CFam(Fam::Contract)), |x: Vec<ContractDefinitionNode>| Some(JsonV::Arr(seq_contract_node_of(x@)))),
    decreases jv_pairs(ps@), 4int, 0int,
{
    proof {
        reveal(crate::ast::canon::canon_field);
        reveal(crate::ast::canon::canon_value);
    }
    match obj_get(ps, k) {
        None => {
            let out: Vec<ContractDefinitionNode> = Vec::new();
            proof {
                assert(seq_contract_node_of(out@) =~= Seq::<JsonV>::empty());
            }
            Ok(out)
        },
        Some(v) => match v {
            JsonValue::Arr(elems) => {
                proof {
                    lemma_canon_value_arr_unfold(jv(*v), FieldKind::KDefArrChild(Child::CFam(Fam::Contract)), FieldKind::KChild(Child::CFam(Fam::Contract)));
                    assert(jv(*v) == JsonV::Arr(jv_seq(elems@)));
                    lemma_jv_pairs(ps@);
                    let i = choose|i: int| 0 <= i < ps@.len() && ps@[i].1 == *v;
                    assert(jv_pairs(ps@)[i] == (ps@[i].0@, jv(*v)));
                    assert(decreases_to!(jv_pairs(ps@) => jv_pairs(ps@)[i].1));
                    assert(jv(*v)->Arr_0 == jv_seq(elems@));
                    assert(decreases_to!(jv(*v) => jv(*v)->Arr_0));
                }
                match core_arr_contract_node(elems) {
                    Ok(xs) => Ok(xs),
                    Err(e) => Err(prefix_field(k, e)),
                }
            },
            _ => {
                proof {
                    lemma_canon_value_arr_unfold(jv(*v), FieldKind::KDefArrChild(Child::CFam(Fam::Contract)), FieldKind::KChild(Child::CFam(Fam::Contract)));
                }
                Err(DecodeError::Invalid(k.to_owned()))
            },
        },
    }
}

/// Decodes the elements of an array of inheritance specifier members.
pub(crate) fn core_arr_inheritance_specifier(elems: &Vec<JsonValue>) -> (r: Result<Vec<InheritanceSpecifier>, DecodeError>)
    ensures
        match r {
            Ok(xs) => canon_elems(jv_seq(elems@), 0, FieldKind::KChild(Child::CRec(RecId::RInheritanceSpecifier))) == Ok::<Seq<JsonV>, ErrV>(seq_inheritance_specifier_of(xs@)),
            Err(e) => canon_elems(jv_seq(elems@), 0, FieldKind::KChild(Child::CRec(RecId::RInheritanceSpecifier))) == Err::<Seq<JsonV>, ErrV>(e.model()),
        },
    decreases jv_seq(elems@), 6int, 0int,
{
    proof {
        reveal(crate::ast::canon::canon_value);
        reveal(crate::ast::canon::canon_field);
    }
    let ghost s = jv_seq(elems@);
    let ghost ek = FieldKind::KChild(Child::CRec(RecId::RInheritanceSpecifier));
    proof {
        lemma_jv_seq(elems@);
    }
    let n = elems.len();
    let mut out: Vec<InheritanceSpecifier> = Vec::new();
    let mut i: usize = 0;
    while i < n
        invariant
            i <= n,
            n == elems@.len(),
            s == jv_seq(elems@),
            s.len() == n,
            forall|j: int| 0 <= j < n ==> s[j] == jv(elems@[j]),
            out@.len() == i,
            forall|j: int| 0 <= j < i ==> canon_value(#[trigger] s[j], ek) == Ok::<JsonV, ErrV>(
                JsonV::Obj(enc_inheritance_specifier(out@[j])),
            ),
            ek == FieldKind::KChild(Child::CRec(RecId::RInheritanceSpecifier)),
        decreases n - i,
    {
        let child = &elems[i];
        proof {
            assert(s[i as int] == jv(*child));
            assert(decreases_to!(s => s[i as int]));
        }
        match child {
            JsonValue::Obj(cps) => {
                proof {
                    assert(jv(*child) == JsonV::Obj(jv_pairs(cps@)));
                    assert(jv(*child)->Obj_0 == jv_pairs(cps@));
                    assert(decreases_to!(jv(*child) => jv(*child)->Obj_0));
                }
                match decode_inheritance_specifier(cps) {
                    Ok(x) => {
                        out.push(x);
                        proof {
                            lemma_canon_value_child_unfold(s[i as int], Child::CRec(RecId::RInheritanceSpecifier));
                            
                            assert(canon_value(s[i as int], ek) == Ok::<JsonV, ErrV>(JsonV::Obj(enc_inheritance_specifier(x))));
                        }
                    },
                    Err(e) => {
                        proof {
                            lemma_canon_value_child_unfold(s[i as int], Child::CRec(RecId::RInheritanceSpecifier));
                            
                            lemma_canon_fields_err_shape(jv_pairs(cps@), schema(RecId::RInheritanceSpecifier), 0);
                            lemma_canon_elems_err(s, i as int, ek);
                            assert(prefix_err(
                                idx_path(i as int),
                                canon_value(s[i as int], ek)->Err_0,
                            ) == prefix_err(idx_path(i as int), e.model()));
                        }
                        return Err(prefix_index(i, e));
                    },
                }
            },
            _ => {
                proof {
                    lemma_canon_value_child_unfold(s[i as int], Child::CRec(RecId::RInheritanceSpecifier));
                    
                    lemma_canon_elems_err(s, i as int, ek);
                }
                return Err(prefix_index(i, DecodeError::Invalid(String::new())));
            },
        }
        i += 1;
    }
    proof {
        lemma_canon_elems_ok(s, ek);
        let cs = canon_elems(s, 0, ek)->Ok_0;
        crate::ast::shape::lemma_seq_inheritance_specifier_of(out@);
        assert forall|j: int| 0 <= j < n implies cs[j] == seq_inheritance_specifier_of(out@)[j] by {
            assert(canon_value(s[j], ek) == Ok::<JsonV, ErrV>(JsonV::Obj(enc_inheritance_specifier(out@[j]))));
        }
        assert(cs =~= seq_inheritance_specifier_of(out@));
    }
    Ok(out)
}

/// Reads an optional array-of-inheritance specifier member.
pub(crate) fn g_oac_inheritance_specifier(ps: &Vec<(String, JsonValue)>, k: &str) -> (r: Result<Option<Vec<InheritanceSpecifier>>, DecodeError>)
    ensures
        field_matches(r, ps@, k@, FieldKind::KOptArrChild(Child::CRec(RecId::RInheritanceSpecifier)), |x: Option<Vec<InheritanceSpecifier>>| Some(opt_arr_inheritance_specifier_of(x))),
    decreases jv_pairs(ps@), 4int, 0int,
{
    proof {
        reveal(crate::ast::canon::canon_field);
        reveal(crate::ast::canon::canon_value);
    }
    match obj_get(ps, k) {
        None => Ok(None),
        Some(v) => match v {
            JsonValue::Null => {
                proof {
                    lemma_canon_value_opt_arr_unfold(jv(*v), FieldKind::KOptArrChild(Child::CRec(RecId::RInheritanceSpecifier)), FieldKind::KChild(Child::CRec(RecId::RInheritanceSpecifier)));
                }
                Ok(None)
            },
            JsonValue::Arr(elems) => {
                proof {
                    lemma_canon_value_opt_arr_unfold(jv(*v), FieldKind::KOptArrChild(Child::CRec(RecId::RInheritanceSpecifier)), FieldKind::KChild(Child::CRec(RecId::RInheritanceSpecifier)));
                    assert(jv(*v) == JsonV::Arr(jv_seq(elems@)));
                    lemma_jv_pairs(ps@);
                    let i = choose|i: int| 0 <= i < ps@.len() && ps@[i].1 == *v;
                    assert(jv_pairs(ps@)[i] == (ps@[i].0@, jv(*v)));
                    assert(decreases_to!(jv_pairs(ps@) => jv_pairs(ps@)[i].1));
                    assert(jv(*v)->Arr_0 == jv_seq(elems@));
                    assert(decreases_to!(jv(*v) => jv(*v)->Arr_0));
                }
                match core_arr_inheritance_specifier(elems) {
                    Ok(xs) => Ok(Some(xs)),
                    Err(e) => Err(prefix_field(k, e)),
                }
            },
            _ => {
                proof {
                    lemma_canon_value_opt_arr_unfold(jv(*v), FieldKind::KOptArrChild(Child::CRec(RecId::RInheritanceSpecifier)), FieldKind::KChild(Child::CRec(RecId::RInheritanceSpecifier)));
                }
                Err(DecodeError::Invalid(k.to_owned()))
            },
        },
    }
}

/// Decodes the elements of an array of modifier invocation members.
pub(crate) fn core_arr_modifier_invocation(elems: &Vec<JsonValue>) -> (r: Result<Vec<ModifierInvocation>, DecodeError>)
    ensures
        match r {
            Ok(xs) => canon_elems(jv_seq(elems@), 0, FieldKind::KChild(Child::CRec(RecId::RModifierInvocation))) == Ok::<Seq<JsonV>, ErrV>(seq_modifier_invocation_of(xs@)),
            Err(e) => canon_elems(jv_seq(elems@), 0, FieldKind::KChild(Child::CRec(RecId::RModifierInvocation))) == Err::<Seq<JsonV>, ErrV>(e.model()),
        },
    decreases jv_seq(elems@), 6int, 0int,
{
    proof {
        reveal(crate::ast::canon::canon_value);
        reveal(crate::ast::canon::canon_field);
    }
    let ghost s = jv_seq(elems@);
    let ghost ek = FieldKind::KChild(Child::CRec(RecId::RModifierInvocation));
    proof {
        lemma_jv_seq(elems@);
    }
    let n = elems.len();
    let mut out: Vec<ModifierInvocation> = Vec::new();
    let mut i: usize = 0;
    while i < n
        invariant
            i <= n,
            n == elems@.len(),
            s == jv_seq(elems@),
            s.len() == n,
            forall|j: int| 0 <= j < n ==> s[j] == jv(elems@[j]),
            out@.len() == i,
            forall|j: int| 0 <= j < i ==> canon_value(#[trigger] s[j], ek) == Ok::<JsonV, ErrV>(
                JsonV::Obj(enc_modifier_invocation(out@[j])),
            ),
            ek == FieldKind::KChild(Child::CRec(RecId::RModifierInvocation)),
        decreases n - i,
    {
        let child = &elems[i];
        proof {
            assert(s[i as int] == jv(*child));
            assert(decreases_to!(s => s[i as int]));
        }
        match child {
            JsonValue::Obj(cps) => {
                proof {
                    assert(jv(*child) == JsonV::Obj(jv_pairs(cps@)));
                    assert(jv(*child)->Obj_0 == jv_pairs(cps@));
                    assert(decreases_to!(jv(*child) => jv(*child)->Obj_0));
                }
                match decode_modifier_invocation(cps) {
                    Ok(x) => {
                        out.push(x);
                        proof {
                            lemma_canon_value_child_unfold(s[i as int], Child::CRec(RecId::RModifierInvocation));
                            
                            assert(canon_value(s[i as int], ek) == Ok::<JsonV, ErrV>(JsonV::Obj(enc_modifier_invocation(x))));
                        }
                    },
                    Err(e) => {
                        proof {
                            lemma_canon_value_child_unfold(s[i as int], Child::CRec(RecId::RModifierInvocation));
                            
                            lemma_canon_fields_err_shape(jv_pairs(cps@), schema(RecId::RModifierInvocation), 0);
                            lemma_canon_elems_err(s, i as int, ek);
                            assert(prefix_err(
                                idx_path(i as int),
                                canon_value(s[i as int], ek)->Err_0,
                            ) == prefix_err(idx_path(i as int), e.model()));
                        }
                        return Err(prefix_index(i, e));
                    },
                }
            },
            _ => {
                proof {
                    lemma_canon_value_child_unfold(s[i as int], Child::CRec(RecId::RModifierInvocation));
                    
                    lemma_canon_elems_err(s, i as int, ek);
                }
                return Err(prefix_index(i, DecodeError::Invalid(String::new())));
            },
        }
        i += 1;
    }
    proof {
        lemma_canon_elems_ok(s, ek);
        let cs = canon_elems(s, 0, ek)->Ok_0;
        crate::ast::shape::lemma_seq_modifier_invocation_of(out@);
        assert forall|j: int| 0 <= j < n implies cs[j] == seq_modifier_invocation_of(out@)[j] by {
            assert(canon_value(s[j], ek) == Ok::<JsonV, ErrV>(JsonV::Obj(enc_modifier_invocation(out@[j]))));
        }
        assert(cs =~= seq_modifier_invocation_of(out@));
    }
    Ok(out)
}

/// Reads a required array-of-modifier invocation member.
pub(crate) fn g_ac_modifier_invocation(ps: &Vec<(String, JsonValue)>, k: &str) -> (r: Result<Vec<ModifierInvocation>, DecodeError>)
    ensures
        field_matches(r, ps@, k@, FieldKind::KArrChild(Child::CRec(RecId::RModifierInvocation)), |x: Vec<ModifierInvocation>| Some(JsonV::Arr(seq_modifier_invocation_of(x@)))),
    decreases jv_pairs(ps@), 4int, 0int,
{
    proof {
        reveal(crate::ast::canon::canon_field);
        reveal(crate::ast::canon::canon_value);
    }
    match obj_get(ps, k) {
        None => Err(DecodeError::Missing(k.to_owned())),
        Some(v) => match v {
            JsonValue::Arr(elems) => {
                proof {
                    lemma_canon_value_arr_unfold(jv(*v), FieldKind::KArrChild(Child::CRec(RecId::RModifierInvocation)), FieldKind::KChild(Child::CRec(RecId::RModifierInvocation)));
                    assert(jv(*v) == JsonV::Arr(jv_seq(elems@)));
                    lemma_jv_pairs(ps@);
                    let i = choose|i: int| 0 <= i < ps@.len() && ps@[i].1 == *v;
                    assert(jv_pairs(ps@)[i] == (ps@[i].0@, jv(*v)));
                    assert(decreases_to!(jv_pairs(ps@) => jv_pairs(ps@)[i].1));
                    assert(jv(*v)->Arr_0 == jv_seq(elems@));
                    assert(decreases_to!(jv(*v) => jv(*v)->Arr_0));
                }
                match core_arr_modifier_invocation(elems) {
                    Ok(xs) => Ok(xs),
                    Err(e) => Err(prefix_field(k, e)),
                }
            },
            _ => {
                proof {
                    lemma_canon_value_arr_unfold(jv(*v), FieldKind::KArrChild(Child::CRec(RecId::RModifierInvocation)), FieldKind::KChild(Child::CRec(RecId::RModifierInvocation)));
                }
                Err(DecodeError::Invalid(k.to_owned()))
            },
        },
    }
}

/// Reads a required nested parameter list member.
pub(crate) fn g_c_parameter_list(ps: &Vec<(String, JsonValue)>, k: &str) -> (r: Result<ParameterList, DecodeError>)
    ensures
        field_matches(
            r,
            ps@,
            k@,
            FieldKind::KChild(Child::CRec(RecId::RParameterList)),
            |x: ParameterList| Some(JsonV::Obj(enc_parameter_list(x))),
        ),
    decreases jv_pairs(ps@), 4int, 0int,
{
    proof {
        reveal(crate::ast::canon::canon_field);
        reveal(crate::ast::canon::canon_value);
    }
    match obj_get(ps, k) {
        None => Err(DecodeError::Missing(k.to_owned())),
        Some(v) => match v {
            JsonValue::Obj(cps) => {
                proof {
                    assert(jv(*v) == JsonV::Obj(jv_pairs(cps@)));
                    lemma_jv_pairs(ps@);
                    let i = choose|i: int| 0 <= i < ps@.len() && ps@[i].1 == *v;
                    assert(jv_pairs(ps@)[i] == (ps@[i].0@, jv(*v)));
                    assert(decreases_to!(jv_pairs(ps@) => jv_pairs(ps@)[i].1));
                    assert(jv(*v)->Obj_0 == jv_pairs(cps@));
                    assert(decreases_to!(jv(*v) => jv(*v)->Obj_0));
                }
                match decode_parameter_list(cps) {
                    Ok(x) => Ok(x),
                    Err(e) => {
                        proof {
                            lemma_canon_fields_err_shape(jv_pairs(cps@), schema(RecId::RParameterList), 0);
                        }
                        Err(prefix_field(k, e))
                    },
                }
            },
            _ => Err(DecodeError::Invalid(k.to_owned())),
        },
    }
}

/// Reads an optional parameter list member.
pub(crate) fn g_oc_parameter_list(ps: &Vec<(String, JsonValue)>, k: &str) -> (r: Result<
    Option<ParameterList>,
    DecodeError,
>)
    ensures
        field_matches(
            r,
            ps@,
            k@,
            FieldKind::KOptChild(Child::CRec(RecId::RParameterList)),
            |x: Option<ParameterList>| Some(opt_parameter_list_of(x)),
        ),
    decreases jv_pairs(ps@), 4int, 0int,
{
    proof {
        reveal(crate::ast::canon::canon_field);
        reveal(crate::ast::canon::canon_value);
    }
    match obj_get(ps, k) {
        None => Ok(None),
        Some(v) => match v {
            JsonValue::Null => {
                proof {
                    lemma_canon_value_opt_child_unfold(jv(*v), Child::CRec(RecId::RParameterList));
                }
                Ok(None)
            },
            JsonValue::Obj(cps) => {
                proof {
                    lemma_canon_value_opt_child_unfold(jv(*v), Child::CRec(RecId::RParameterList));
                    assert(jv(*v) == JsonV::Obj(jv_pairs(cps@)));
                    lemma_jv_pairs(ps@);
                    let i = choose|i: int| 0 <= i < ps@.len() && ps@[i].1 == *v;
                    assert(jv_pairs(ps@)[i] == (ps@[i].0@, jv(*v)));
                    assert(decreases_to!(jv_pairs(ps@) => jv_pairs(ps@)[i].1));
                    assert(jv(*v)->Obj_0 == jv_pairs(cps@));
                    assert(decreases_to!(jv(*v) => jv(*v)->Obj_0));
                }
                match decode_parameter_list(cps) {
                    Ok(x) => Ok(Some(x)),
                    Err(e) => {
                        proof {
                            lemma_canon_fields_err_shape(jv_pairs(cps@), schema(RecId::RParameterList), 0);
                        }
                        Err(prefix_field(k, e))
                    },
                }
            },
            _ => {
                proof {
                    lemma_canon_value_opt_child_unfold(jv(*v), Child::CRec(RecId::RParameterList));
                }
                Err(DecodeError::Invalid(k.to_owned()))
            },
        },
    }
}

/// Decodes the elements of an array of source unit node members.
pub(crate) fn core_arr_source_unit_node(elems: &Vec<JsonValue>) -> (r: Result<Vec<SourceUnitNode>, DecodeError>)
    ensures
        match r {
            Ok(xs) => canon_elems(jv_seq(elems@), 0, FieldKind::KChild(Child::CFam(Fam::SourceUnit))) == Ok::<Seq<JsonV>, ErrV>(seq_source_unit_node_of(xs@)),
            Err(e) => canon_elems(jv_seq(elems@), 0, FieldKind::KChild(Child::CFam(Fam::SourceUnit))) == Err::<Seq<JsonV>, ErrV>(e.model()),
        },
    decreases jv_seq(elems@), 6int, 0int,
{
    proof {
        reveal(crate::ast::canon::canon_value);
        reveal(crate::ast::canon::canon_field);
    }
    let ghost s = jv_seq(elems@);
    let ghost ek = FieldKind::KChild(Child::CFam(Fam::SourceUnit));
    proof {
        lemma_jv_seq(elems@);
    }
    let n = elems.len();
    let mut out: Vec<SourceUnitNode> = Vec::new();
    let mut i: usize = 0;
    while i < n
        invariant
            i <= n,
            n == elems@.len(),
            s == jv_seq(elems@),
            s.len() == n,
            forall|j: int| 0 <= j < n ==> s[j] == jv(elems@[j]),
            out@.len() == i,
            forall|j: int| 0 <= j < i ==> canon_value(#[trigger] s[j], ek) == Ok::<JsonV, ErrV>(
                enc_source_unit_node(out@[j]),
            ),
            ek == FieldKind::KChild(Child::CFam(Fam::SourceUnit)),
        decreases n - i,
    {
        let child = &elems[i];
        proof {
            assert(s[i as int] == jv(*child));
            assert(decreases_to!(s => s[i as int]));
        }
        match decode_source_unit_node(child) {
            Ok(x) => {
                out.push(x);
                proof {
                    lemma_canon_value_child_unfold(s[i as int], Child::CFam(Fam::SourceUnit));
                    
                    assert(canon_value(s[i as int], ek) == Ok::<JsonV, ErrV>(enc_source_unit_node(x)));
                }
            },
            Err(e) => {
                proof {
                    lemma_canon_value_child_unfold(s[i as int], Child::CFam(Fam::SourceUnit));
                    
                    crate::ast::dec_leaf::lemma_canon_node_err_shape(jv(*child), Fam::SourceUnit);
                    lemma_canon_elems_err(s, i as int, ek);
                    assert(prefix_err(idx_path(i as int), canon_value(s[i as int], ek)->Err_0)
                        == prefix_err(idx_path(i as int), e.model()));
                }
                return Err(prefix_index(i, e));
            },
        }
        i += 1;
    }
    proof {
        lemma_canon_elems_ok(s, ek);
        let cs = canon_elems(s, 0, ek)->Ok_0;
        crate::ast::shape::lemma_seq_source_unit_node_of(out@);
        assert forall|j: int| 0 <= j < n implies cs[j] == seq_source_unit_node_of(out@)[j] by {
            assert(canon_value(s[j], ek) == Ok::<JsonV, ErrV>(enc_source_unit_node(out@[j])));
        }
        assert(cs =~= seq_source_unit_node_of(out@));
    }
    Ok(out)
}

/// Reads a required array-of-source unit node member.
pub(crate) fn g_ac_source_unit_node(ps: &Vec<(String, JsonValue)>, k: &str) -> (r: Result<Vec<SourceUnitNode>, DecodeError>)
    ensures
        field_matches(r, ps@, k@, FieldKind::KArrChild(Child::CFam(Fam::SourceUnit)), |x: Vec<SourceUnitNode>| Some(JsonV::Arr(seq_source_unit_node_of(x@)))),
    decreases jv_pairs(ps@), 4int, 0int,
{
    proof {
        reveal(crate::ast::canon::canon_field);
        reveal(crate::ast::canon::canon_value);
    }
    match obj_get(ps, k) {
        None => Err(DecodeError::Missing(k.to_owned())),
        Some(v) => match v {
            JsonValue::Arr(elems) => {
                proof {
                    lemma_canon_value_arr_unfold(jv(*v), FieldKind::KArrChild(Child::CFam(Fam::SourceUnit)), FieldKind::KChild(Child::CFam(Fam::SourceUnit)));
                    assert(jv(*v) == JsonV::Arr(jv_seq(elems@)));
                    lemma_jv_pairs(ps@);
                    let i = choose|i: int| 0 <= i < ps@.len() && ps@[i].1 == *v;
                    assert(jv_pairs(ps@)[i] == (ps@[i].0@, jv(*v)));
                    assert(decreases_to!(jv_pairs(ps@) => jv_pairs(ps@)[i].1));
                    assert(jv(*v)->Arr_0 == jv_seq(elems@));
                    assert(decreases_to!(jv(*v) => jv(*v)->Arr_0));
                }
                match core_arr_source_unit_node(elems) {
                    Ok(xs) => Ok(xs),
                    Err(e) => Err(prefix_field(k, e)),
                }
            },
            _ => {
                proof {
                    lemma_canon_value_arr_unfold(jv(*v), FieldKind::KArrChild(Child::CFam(Fam::SourceUnit)), FieldKind::KChild(Child::CFam(Fam::SourceUnit)));
                }
                Err(DecodeError::Invalid(k.to_owned()))
            },
        },
    }
}

/// Decodes the elements of an array of variable declaration members.
pub(crate) fn core_arr_variable_declaration(elems: &Vec<JsonValue>) -> (r: Result<Vec<VariableDeclaration>, DecodeError>)
    ensures
        match r {
            Ok(xs) => canon_elems(jv_seq(elems@), 0, FieldKind::KChild(Child::CRec(RecId::RVariableDeclaration))) == Ok::<Seq<JsonV>, ErrV>(seq_variable_declaration_of(xs@)),
            Err(e) => canon_elems(jv_seq(elems@), 0, FieldKind::KChild(Child::CRec(RecId::RVariableDeclaration))) == Err::<Seq<JsonV>, ErrV>(e.model()),
        },
    decreases jv_seq(elems@), 6int, 0int,
{
    proof {
        reveal(crate::ast::canon::canon_value);
        reveal(crate::ast::canon::canon_field);
    }
    let ghost s = jv_seq(elems@);
    let ghost ek = FieldKind::KChild(Child::CRec(RecId::RVariableDeclaration));
    proof {
        lemma_jv_seq(elems@);
    }
    let n = elems.len();
    let mut out: Vec<VariableDeclaration> = Vec::new();
    let mut i: usize = 0;
    while i < n
        invariant
            i <= n,
            n == elems@.len(),
            s == jv_seq(elems@),
            s.len() == n,
            forall|j: int| 0 <= j < n ==> s[j] == jv(elems@[j]),
            out@.len() == i,
            forall|j: int| 0 <= j < i ==> canon_value(#[trigger] s[j], ek) == Ok::<JsonV, ErrV>(
                JsonV::Obj(enc_variable_declaration(out@[j])),
            ),
            ek == FieldKind::KChild(Child::CRec(RecId::RVariableDeclaration)),
        decreases n - i,
    {
        let child = &elems[i];
        proof {
            assert(s[i as int] == jv(*child));
            assert(decreases_to!(s => s[i as int]));
        }
        match child {
            JsonValue::Obj(cps) => {
                proof {
                    assert(jv(*child) == JsonV::Obj(jv_pairs(cps@)));
                    assert(jv(*child)->Obj_0 == jv_pairs(cps@));
                    assert(decreases_to!(jv(*child) => jv(*child)->Obj_0));
                }
                match decode_variable_declaration(cps) {
                    Ok(x) => {
                        out.push(x);
                        proof {
                            lemma_canon_value_child_unfold(s[i as int], Child::CRec(RecId::RVariableDeclaration));
                            
                            assert(canon_value(s[i as int], ek) == Ok::<JsonV, ErrV>(JsonV::Obj(enc_variable_declaration(x))));
                        }
                    },
                    Err(e) => {
                        proof {
                            lemma_canon_value_child_unfold(s[i as int], Child::CRec(RecId::RVariableDeclaration));
                            
                            lemma_canon_fields_err_shape(jv_pairs(cps@), schema(RecId::RVariableDeclaration), 0);
                            lemma_canon_elems_err(s, i as int, ek);
                            assert(prefix_err(
                                idx_path(i as int),
                                canon_value(s[i as int], ek)->Err_0,
                            ) == prefix_err(idx_path(i as int), e.model()));
                        }
                        return Err(prefix_index(i, e));
                    },
                }
            },
            _ => {
                proof {
                    lemma_canon_value_child_unfold(s[i as int], Child::CRec(RecId::RVariableDeclaration));
                    
                    lemma_canon_elems_err(s, i as int, ek);
                }
                return Err(prefix_index(i, DecodeError::Invalid(String::new())));
            },
        }
        i += 1;
    }
    proof {
        lemma_canon_elems_ok(s, ek);
        let cs = canon_elems(s, 0, ek)->Ok_0;
        crate::ast::shape::lemma_seq_variable_declaration_of(out@);
        assert forall|j: int| 0 <= j < n implies cs[j] == seq_variable_declaration_of(out@)[j] by {
            assert(canon_value(s[j], ek) == Ok::<JsonV, ErrV>(JsonV::Obj(enc_variable_declaration(out@[j]))));
        }
        assert(cs =~= seq_variable_declaration_of(out@));
    }
    Ok(out)
}

/// Decodes the elements of an array of optional variable declaration members.
pub(crate) fn core_arr_opt_variable_declaration(elems: &Vec<JsonValue>) -> (r: Result<Vec<Option<VariableDeclaration>>, DecodeError>)
    ensures
        match r {
            Ok(xs) => canon_elems(jv_seq(elems@), 0, FieldKind::KOptChild(Child::CRec(RecId::RVariableDeclaration))) == Ok::<Seq<JsonV>, ErrV>(seq_opt_variable_declaration_of(xs@)),
            Err(e) => canon_elems(jv_seq(elems@), 0, FieldKind::KOptChild(Child::CRec(RecId::RVariableDeclaration))) == Err::<Seq<JsonV>, ErrV>(e.model()),
        },
    decreases jv_seq(elems@), 6int, 0int,
{
    proof {
        reveal(crate::ast::canon::canon_value);
        reveal(crate::ast::canon::canon_field);
    }
    let ghost s = jv_seq(elems@);
    let ghost ek = FieldKind::KOptChild(Child::CRec(RecId::RVariableDeclaration));
    proof {
        lemma_jv_seq(elems@);
    }
    let n = elems.len();
    let mut out: Vec<Option<VariableDeclaration>> = Vec::new();
    let mut i: usize = 0;
    while i < n
        invariant
            i <= n,
            n == elems@.len(),
            s == jv_seq(elems@),
            s.len() == n,
            forall|j: int| 0 <= j < n ==> s[j] == jv(elems@[j]),
            out@.len() == i,
            forall|j: int| 0 <= j < i ==> canon_value(#[trigger] s[j], ek) == Ok::<JsonV, ErrV>(
                opt_variable_declaration_of(out@[j]),
            ),
            ek == FieldKind::KOptChild(Child::CRec(RecId::RVariableDeclaration)),
        decreases n - i,
    {
        let child = &elems[i];
        proof {
            assert(s[i as int] == jv(*child));
            assert(decreases_to!(s => s[i as int]));
        }
        if matches!(child, JsonValue::Null) {
            out.push(None);
            proof {
                lemma_canon_value_opt_child_unfold(s[i as int], Child::CRec(RecId::RVariableDeclaration));
                assert(canon_value(s[i as int], ek) == Ok::<JsonV, ErrV>(JsonV::Null));
            }
            i += 1;
            continue;
        }
        match child {
            JsonValue::Obj(cps) => {
                proof {
                    assert(jv(*child) == JsonV::Obj(jv_pairs(cps@)));
                    assert(jv(*child)->Obj_0 == jv_pairs(cps@));
                    assert(decreases_to!(jv(*child) => jv(*child)->Obj_0));
                }
                match decode_variable_declaration(cps) {
                    Ok(x) => {
                        out.push(Some(x));
                        proof {
                            lemma_canon_value_child_unfold(s[i as int], Child::CRec(RecId::RVariableDeclaration));
                            lemma_canon_value_opt_child_unfold(s[i as int], Child::CRec(RecId::RVariableDeclaration));
                            assert(canon_value(s[i as int], ek) == Ok::<JsonV, ErrV>(opt_variable_declaration_of(Some(x))));
                        }
                    },
                    Err(e) => {
                        proof {
                            lemma_canon_value_child_unfold(s[i as int], Child::CRec(RecId::RVariableDeclaration));
                            lemma_canon_value_opt_child_unfold(s[i as int], Child::CRec(RecId::RVariableDeclaration));
                            lemma_canon_fields_err_shape(jv_pairs(cps@), schema(RecId::RVariableDeclaration), 0);
                            lemma_canon_elems_err(s, i as int, ek);
                            assert(prefix_err(
                                idx_path(i as int),
                                canon_value(s[i as int], ek)->Err_0,
                            ) == prefix_err(idx_path(i as int), e.model()));
                        }
                        return Err(prefix_index(i, e));
                    },
                }
            },
            _ => {
                proof {
                    lemma_canon_value_child_unfold(s[i as int], Child::CRec(RecId::RVariableDeclaration));
                    lemma_canon_value_opt_child_unfold(s[i as int], Child::CRec(RecId::RVariableDeclaration));
                    lemma_canon_elems_err(s, i as int, ek);
                }
                return Err(prefix_index(i, DecodeError::Invalid(String::new())));
            },
        }
        i += 1;
    }
    proof {
        lemma_canon_elems_ok(s, ek);
        let cs = canon_elems(s, 0, ek)->Ok_0;
        crate::ast::shape::lemma_seq_opt_variable_declaration_of(out@);
        assert forall|j: int| 0 <= j < n implies cs[j] == seq_opt_variable_declaration_of(out@)[j] by {
            assert(canon_value(s[j], ek) == Ok::<JsonV, ErrV>(opt_variable_declaration_of(out@[j])));
        }
        assert(cs =~= seq_opt_variable_declaration_of(out@));
    }
    Ok(out)
}

/// Reads a required array-of-variable declaration member.
pub(crate) fn g_ac_variable_declaration(ps: &Vec<(String, JsonValue)>, k: &str) -> (r: Result<Vec<VariableDeclaration>, DecodeError>)
    ensures
        field_matches(r, ps@, k@, FieldKind::KArrChild(Child::CRec(RecId::RVariableDeclaration)), |x: Vec<VariableDeclaration>| Some(JsonV::Arr(seq_variable_declaration_of(x@)))),
    decreases jv_pairs(ps@), 4int, 0int,
{
    proof {
        reveal(crate::ast::canon::canon_field);
        reveal(crate::ast::canon::canon_value);
    }
    match obj_get(ps, k) {
        None => Err(DecodeError::Missing(k.to_owned())),
        Some(v) => match v {
            JsonValue::Arr(elems) => {
                proof {
                    lemma_canon_value_arr_unfold(jv(*v), FieldKind::KArrChild(Child::CRec(RecId::RVariableDeclaration)), FieldKind::KChild(Child::CRec(RecId::RVariableDeclaration)));
                    assert(jv(*v) == JsonV::Arr(jv_seq(elems@)));
                    lemma_jv_pairs(ps@);
                    let i = choose|i: int| 0 <= i < ps@.len() && ps@[i].1 == *v;
                    assert(jv_pairs(ps@)[i] == (ps@[i].0@, jv(*v)));
                    assert(decreases_to!(jv_pairs(ps@) => jv_pairs(ps@)[i].1));
                    assert(jv(*v)->Arr_0 == jv_seq(elems@));
                    assert(decreases_to!(jv(*v) => jv(*v)->Arr_0));
                }
                match core_arr_variable_declaration(elems) {
                    Ok(xs) => Ok(xs),
                    Err(e) => Err(prefix_field(k, e)),
                }
            },
            _ => {
                proof {
                    lemma_canon_value_arr_unfold(jv(*v), FieldKind::KArrChild(Child::CRec(RecId::RVariableDeclaration)), FieldKind::KChild(Child::CRec(RecId::RVariableDeclaration)));
                }
                Err(DecodeError::Invalid(k.to_owned()))
            },
        },
    }
}

/// Reads a required array member whose elements are variable declaration members or nulls.
pub(crate) fn g_aoc_variable_declaration(ps: &Vec<(String, JsonValue)>, k: &str) -> (r: Result<
    Vec<Option<VariableDeclaration>>,
    DecodeError,
>)
    ensures
        field_matches(
            r,
            ps@,
            k@,
            FieldKind::KArrOptChild(Child::CRec(RecId::RVariableDeclaration)),
            |x: Vec<Option<VariableDeclaration>>| Some(JsonV::Arr(seq_opt_variable_declaration_of(x@))),
        ),
    decreases jv_pairs(ps@), 4int, 0int,
{
    proof {
        reveal(crate::ast::canon::canon_field);
        reveal(crate::ast::canon::canon_value);
    }
    match obj_get(ps, k) {
        None => Err(DecodeError::Missing(k.to_owned())),
        Some(v) => match v {
            JsonValue::Arr(elems) => {
                proof {
                    lemma_canon_value_arr_unfold(jv(*v), FieldKind::KArrOptChild(Child::CRec(RecId::RVariableDeclaration)), FieldKind::KOptChild(Child::CRec(RecId::RVariableDeclaration)));
                    assert(jv(*v) == JsonV::Arr(jv_seq(elems@)));
                    lemma_jv_pairs(ps@);
                    let i = choose|i: int| 0 <= i < ps@.len() && ps@[i].1 == *v;
                    assert(jv_pairs(ps@)[i] == (ps@[i].0@, jv(*v)));
                    assert(decreases_to!(jv_pairs(ps@) => jv_pairs(ps@)[i].1));
                    assert(jv(*v)->Arr_0 == jv_seq(elems@));
                    assert(decreases_to!(jv(*v) => jv(*v)->Arr_0));
                }
                match core_arr_opt_variable_declaration(elems) {
                    Ok(xs) => Ok(xs),
                    Err(e) => Err(prefix_field(k, e)),
                }
            },
            _ => {
                proof {
                    lemma_canon_value_arr_unfold(jv(*v), FieldKind::KArrOptChild(Child::CRec(RecId::RVariableDeclaration)), FieldKind::KOptChild(Child::CRec(RecId::RVariableDeclaration)));
                }
                Err(DecodeError::Invalid(k.to_owned()))
            },
        },
    }
}

/// Decodes a parameterList record from the members of an object.
pub fn decode_parameter_list(ps: &Vec<(String, JsonValue)>) -> (r: Result<ParameterList, DecodeError>)
    ensures
        match r {
            Ok(x) => canon_fields(jv_pairs(ps@), schema(RecId::RParameterList), 0) == Ok::<
                Seq<(Seq<char>, JsonV)>,
                ErrV,
            >(enc_parameter_list(x)),
            Err(e) => canon_fields(jv_pairs(ps@), schema(RecId::RParameterList), 0) == Err::<
                Seq<(Seq<char>, JsonV)>,
                ErrV,
            >(e.model()),
        },
    decreases jv_pairs(ps@), 5int, 0int,
{
    let ghost psv = jv_pairs(ps@);
    let ghost fs = schema(RecId::RParameterList);
    let id = match g_i64(ps, "id") {
        Ok(x) => x,
        Err(e) => {
            proof {
                lemma_canon_fields_first_err(psv, fs, 0, 0, e.model());
            }
            return Err(e);
        },
    };
    let parameters = match g_ac_variable_declaration(ps, "parameters") {
        Ok(x) => x,
        Err(e) => {
            proof {
                assert forall|m: int| 0 <= m < 1 implies canon_field(
                    psv,
                    (#[trigger] fs[m]).0,
                    fs[m].1,
                ) is Ok by {}
                lemma_canon_fields_first_err(psv, fs, 0, 1, e.model());
            }
            return Err(e);
        },
    };
    let src = match g_src(ps, "src") {
        Ok(x) => x,
        Err(e) => {
            proof {
                assert forall|m: int| 0 <= m < 2 implies canon_field(
                    psv,
                    (#[trigger] fs[m]).0,
                    fs[m].1,
                ) is Ok by {}
                lemma_canon_fields_first_err(psv, fs, 0, 2, e.model());
            }
            return Err(e);
        },
    };
    let result = ParameterList { id, parameters, src };
    let ghost outs: Seq<(Seq<char>, Option<JsonV>)> = seq![
        ("id"@, Some(JsonV::Int(result.id as int))),
        ("parameters"@, Some(JsonV::Arr(seq_variable_declaration_of(result.parameters@)))),
        ("src"@, Some(JsonV::Str(spec_encode_location(result.src)))),
    ];
    proof {
        assert forall|j: int| 0 <= j < fs.len() implies (#[trigger] outs[j]).0 == fs[j].0
            && canon_field(psv, fs[j].0, fs[j].1) == Ok::<Option<JsonV>, ErrV>(outs[j].1) by {}
        lemma_canon_fields_ok(psv, fs, outs, 0);
        assert(cat_opts(outs, 0) =~= enc_parameter_list(result)) by {
            reveal_with_fuel(cat_opts, 5);
        }
    }
    Ok(result)
}

/// Decodes a variableDeclaration record from the members of an object.
#[verifier::rlimit(100)]
#[verifier::spinoff_prover]
pub fn decode_variable_declaration(ps: &Vec<(String, JsonValue)>) -> (r: Result<VariableDeclaration, DecodeError>)
    ensures
        match r {
            Ok(x) => canon_fields(jv_pairs(ps@), schema(RecId::RVariableDeclaration), 0) == Ok::<
                Seq<(Seq<char>, JsonV)>,
                ErrV,
            >(enc_variable_declaration(x)),
            Err(e) => canon_fields(jv_pairs(ps@), schema(RecId::RVariableDeclaration), 0) == Err::<
                Seq<(Seq<char>, JsonV)>,
                ErrV,
            >(e.model()),
        },
    decreases jv_pairs(ps@), 5int, 0int,
{
    let ghost psv = jv_pairs(ps@);
    let ghost fs = schema(RecId::RVariableDeclaration);
    let id = match g_i64(ps, "id") {
        Ok(x) => x,
        Err(e) => {
            proof {
                lemma_canon_fields_first_err(psv, fs, 0, 0, e.model());
            }
            return Err(e);
        },
    };
    let name = match g_str(ps, "name") {
        Ok(x) => x,
        Err(e) => {
            proof {
                assert forall|m: int| 0 <= m < 1 implies canon_field(
                    psv,
                    (#[trigger] fs[m]).0,
                    fs[m].1,
                ) is Ok by {}
                lemma_canon_fields_first_err(psv, fs, 0, 1, e.model());
            }
            return Err(e);
        },
    };
    let typename = match crate::ast::dec_type::g_oc_type_name(ps, "typeName") {
        Ok(x) => x,
        Err(e) => {
            proof {
                assert forall|m: int| 0 <= m < 2 implies canon_field(
                    psv,
                    (#[trigger] fs[m]).0,
                    fs[m].1,
                ) is Ok by {}
                lemma_canon_fields_first_err(psv, fs, 0, 2, e.model());
            }
            return Err(e);
        },
    };
    let src = match g_src(ps, "src") {
        Ok(x) => x,
        Err(e) => {
            proof {
                assert forall|m: int| 0 <= m < 3 implies canon_field(
                    psv,
                    (#[trigger] fs[m]).0,
                    fs[m].1,
                ) is Ok by {}
                lemma_canon_fields_first_err(psv, fs, 0, 3, e.model());
            }
            return Err(e);
        },
    };
    let name_location = match g_opt_str(ps, "nameLocation") {
        Ok(x) => x,
        Err(e) => {
            proof {
                assert forall|m: int| 0 <= m < 4 implies canon_field(
                    psv,
                    (#[trigger] fs[m]).0,
                    fs[m].1,
                ) is Ok by {}
                lemma_canon_fields_first_err(psv, fs, 0, 4, e.model());
            }
            return Err(e);
        },
    };
    let visibility = match crate::ast::dec_leaf::g_enum_vis(ps, "visibility") {
        Ok(x) => x,
        Err(e) => {
            proof {
                assert forall|m: int| 0 <= m < 5 implies canon_field(
                    psv,
                    (#[trigger] fs[m]).0,
                    fs[m].1,
                ) is Ok by {}
                lemma_canon_fields_first_err(psv, fs, 0, 5, e.model());
            }
            return Err(e);
        },
    };
    let state_mutability = match crate::ast::dec_leaf::g_oenum_sm(ps, "stateMutability") {
        Ok(x) => x,
        Err(e) => {
            proof {
                assert forall|m: int| 0 <= m < 6 implies canon_field(
                    psv,
                    (#[trigger] fs[m]).0,
                    fs[m].1,
                ) is Ok by {}
                lemma_canon_fields_first_err(psv, fs, 0, 6, e.model());
            }
            return Err(e);
        },
    };
    let mutability = match crate::ast::dec_leaf::g_oenum_mut(ps, "mutability") {
        Ok(x) => x,
        Err(e) => {
            proof {
                assert forall|m: int| 0 <= m < 7 implies canon_field(
                    psv,
                    (#[trigger] fs[m]).0,
                    fs[m].1,
                ) is Ok by {}
                lemma_canon_fields_first_err(psv, fs, 0, 7, e.model());
            }
            return Err(e);
        },
    };
    let state_variable = match g_opt_bool(ps, "stateVariable") {
        Ok(x) => x,
        Err(e) => {
            proof {
                assert forall|m: int| 0 <= m < 8 implies canon_field(
                    psv,
                    (#[trigger] fs[m]).0,
                    fs[m].1,
                ) is Ok by {}
                lemma_canon_fields_first_err(psv, fs, 0, 8, e.model());
            }
            return Err(e);
        },
    };
    let storage_location = match crate::ast::dec_leaf::g_oenum_sl(ps, "storageLocation") {
        Ok(x) => x,
        Err(e) => {
            proof {
                assert forall|m: int| 0 <= m < 9 implies canon_field(
                    psv,
                    (#[trigger] fs[m]).0,
                    fs[m].1,
                ) is Ok by {}
                lemma_canon_fields_first_err(psv, fs, 0, 9, e.model());
            }
            return Err(e);
        },
    };
    let constant = match g_opt_bool(ps, "constant") {
        Ok(x) => x,
        Err(e) => {
            proof {
                assert forall|m: int| 0 <= m < 10 implies canon_field(
                    psv,
                    (#[trigger] fs[m]).0,
                    fs[m].1,
                ) is Ok by {}
                lemma_canon_fields_first_err(psv, fs, 0, 10, e.model());
            }
            return Err(e);
        },
    };
    let immutable = match g_opt_bool(ps, "immutable") {
        Ok(x) => x,
        Err(e) => {
            proof {
                assert forall|m: int| 0 <= m < 11 implies canon_field(
                    psv,
                    (#[trigger] fs[m]).0,
                    fs[m].1,
                ) is Ok by {}
                lemma_canon_fields_first_err(psv, fs, 0, 11, e.model());
            }
            return Err(e);
        },
    };
    let indexed = match g_opt_bool(ps, "indexed") {
        Ok(x) => x,
        Err(e) => {
            proof {
                assert forall|m: int| 0 <= m < 12 implies canon_field(
                    psv,
                    (#[trigger] fs[m]).0,
                    fs[m].1,
                ) is Ok by {}
                lemma_canon_fields_first_err(psv, fs, 0, 12, e.model());
            }
            return Err(e);
        },
    };
    let value = match crate::ast::dec_expr::g_oc_expr(ps, "value") {
        Ok(x) => x,
        Err(e) => {
            proof {
                assert forall|m: int| 0 <= m < 13 implies canon_field(
                    psv,
                    (#[trigger] fs[m]).0,
                    fs[m].1,
                ) is Ok by {}
                lemma_canon_fields_first_err(psv, fs, 0, 13, e.model());
            }
            return Err(e);
        },
    };
    let documentation = match crate::ast::dec_leaf::g_oc_doc(ps, "documentation") {
        Ok(x) => x,
        Err(e) => {
            proof {
                assert forall|m: int| 0 <= m < 14 implies canon_field(
                    psv,
                    (#[trigger] fs[m]).0,
                    fs[m].1,
                ) is Ok by {}
                lemma_canon_fields_first_err(psv, fs, 0, 14, e.model());
            }
            return Err(e);
        },
    };
    let type_descriptions = match crate::ast::dec_leaf::g_c_type_descriptions(ps, "typeDescriptions") {
        Ok(x) => x,
        Err(e) => {
            proof {
                assert forall|m: int| 0 <= m < 15 implies canon_field(
                    psv,
                    (#[trigger] fs[m]).0,
                    fs[m].1,
                ) is Ok by {}
                lemma_canon_fields_first_err(psv, fs, 0, 15, e.model());
            }
            return Err(e);
        },
    };
    let overrides = match crate::ast::dec_leaf::g_oc_override_specifier(ps, "overrides") {
        Ok(x) => x,
        Err(e) => {
            proof {
                assert forall|m: int| 0 <= m < 16 implies canon_field(
                    psv,
                    (#[trigger] fs[m]).0,
                    fs[m].1,
                ) is Ok by {}
                lemma_canon_fields_first_err(psv, fs, 0, 16, e.model());
            }
            return Err(e);
        },
    };
    let scope = match g_opt_i64(ps, "scope") {
        Ok(x) => x,
        Err(e) => {
            proof {
                assert forall|m: int| 0 <= m < 17 implies canon_field(
                    psv,
                    (#[trigger] fs[m]).0,
                    fs[m].1,
                ) is Ok by {}
                lemma_canon_fields_first_err(psv, fs, 0, 17, e.model());
            }
            return Err(e);
        },
    };
    let result = VariableDeclaration { id, name, typename, src, name_location, visibility, state_mutability, mutability, state_variable, storage_location, constant, immutable, indexed, value, documentation, type_descriptions, overrides, scope };
    let ghost outs: Seq<(Seq<char>, Option<JsonV>)> = seq![
        ("id"@, Some(JsonV::Int(result.id as int))),
        ("name"@, Some(JsonV::Str(result.name@))),
        ("typeName"@, Some(opt_type_name_of(result.typename))),
        ("src"@, Some(JsonV::Str(spec_encode_location(result.src)))),
        ("nameLocation"@, Some(opt_str_of(result.name_location))),
        ("visibility"@, Some(JsonV::Str(spell_vis(result.visibility)))),
        ("stateMutability"@, Some(opt_spell_sm_of(result.state_mutability))),
        ("mutability"@, Some(opt_spell_mut_of(result.mutability))),
        ("stateVariable"@, Some(opt_bool_of(result.state_variable))),
        ("storageLocation"@, Some(opt_spell_sl_of(result.storage_location))),
        ("constant"@, Some(opt_bool_of(result.constant))),
        ("immutable"@, Some(opt_bool_of(result.immutable))),
        ("indexed"@, Some(opt_bool_of(result.indexed))),
        ("value"@, Some(opt_expr_of(result.value))),
        ("documentation"@, Some(opt_doc_of(result.documentation))),
        ("typeDescriptions"@, Some(JsonV::Obj(enc_type_descriptions(result.type_descriptions)))),
        ("overrides"@, Some(opt_override_specifier_of(result.overrides))),
        ("scope"@, Some(opt_int_of(result.scope))),
    ];
    proof {
        assert forall|j: int| 0 <= j < fs.len() implies (#[trigger] outs[j]).0 == fs[j].0
            && canon_field(psv, fs[j].0, fs[j].1) == Ok::<Option<JsonV>, ErrV>(outs[j].1) by {}
        lemma_canon_fields_ok(psv, fs, outs, 0);
        assert(cat_opts(outs, 0) =~= enc_variable_declaration(result)) by {
            reveal_with_fuel(cat_opts, 20);
        }
    }
    Ok(result)
}

/// Decodes a modifierInvocation record from the members of an object.
pub fn decode_modifier_invocation(ps: &Vec<(String, JsonValue)>) -> (r: Result<ModifierInvocation, DecodeError>)
    ensures
        match r {
            Ok(x) => canon_fields(jv_pairs(ps@), schema(RecId::RModifierInvocation), 0) == Ok::<
                Seq<(Seq<char>, JsonV)>,
                ErrV,
            >(enc_modifier_invocation(x)),
            Err(e) => canon_fields(jv_pairs(ps@), schema(RecId::RModifierInvocation), 0) == Err::<
                Seq<(Seq<char>, JsonV)>,
                ErrV,
            >(e.model()),
        },
    decreases jv_pairs(ps@), 5int, 0int,
{
    let ghost psv = jv_pairs(ps@);
    let ghost fs = schema(RecId::RModifierInvocation);
    let id = match g_i64(ps, "id") {
        Ok(x) => x,
        Err(e) => {
            proof {
                lemma_canon_fields_first_err(psv, fs, 0, 0, e.model());
            }
            return Err(e);
        },
    };
    let kind = match crate::ast::dec_leaf::g_oenum_mik(ps, "kind") {
        Ok(x) => x,
        Err(e) => {
            proof {
                assert forall|m: int| 0 <= m < 1 implies canon_field(
                    psv,
                    (#[trigger] fs[m]).0,
                    fs[m].1,
                ) is Ok by {}
                lemma_canon_fields_first_err(psv, fs, 0, 1, e.model());
            }
            return Err(e);
        },
    };
    let modifier_name = match crate::ast::dec_leaf::g_c_identifier_path(ps, "modifierName") {
        Ok(x) => x,
        Err(e) => {
            proof {
                assert forall|m: int| 0 <= m < 2 implies canon_field(
                    psv,
                    (#[trigger] fs[m]).0,
                    fs[m].1,
                ) is Ok by {}
                lemma_canon_fields_first_err(psv, fs, 0, 2, e.model());
            }
            return Err(e);
        },
    };
    let arguments = match crate::ast::dec_expr::g_oac_expr(ps, "arguments") {
        Ok(x) => x,
        Err(e) => {
            proof {
                assert forall|m: int| 0 <= m < 3 implies canon_field(
                    psv,
                    (#[trigger] fs[m]).0,
                    fs[m].1,
                ) is Ok by {}
                lemma_canon_fields_first_err(psv, fs, 0, 3, e.model());
            }
            return Err(e);
        },
    };
    let src = match g_src(ps, "src") {
        Ok(x) => x,
        Err(e) => {
            proof {
                assert forall|m: int| 0 <= m < 4 implies canon_field(
                    psv,
                    (#[trigger] fs[m]).0,
                    fs[m].1,
                ) is Ok by {}
                lemma_canon_fields_first_err(psv, fs, 0, 4, e.model());
            }
            return Err(e);
        },
    };
    let result = ModifierInvocation { id, kind, modifier_name, arguments, src };
    let ghost outs: Seq<(Seq<char>, Option<JsonV>)> = seq![
        ("id"@, Some(JsonV::Int(result.id as int))),
        ("kind"@, Some(opt_spell_mik_of(result.kind))),
        ("modifierName"@, Some(JsonV::Obj(enc_identifier_path(result.modifier_name)))),
        ("arguments"@, Some(opt_arr_expr_of(result.arguments))),
        ("src"@, Some(JsonV::Str(spec_encode_location(result.src)))),
    ];
    proof {
        assert forall|j: int| 0 <= j < fs.len() implies (#[trigger] outs[j]).0 == fs[j].0
            && canon_field(psv, fs[j].0, fs[j].1) == Ok::<Option<JsonV>, ErrV>(outs[j].1) by {}
        lemma_canon_fields_ok(psv, fs, outs, 0);
        assert(cat_opts(outs, 0) =~= enc_modifier_invocation(result)) by {
            reveal_with_fuel(cat_opts, 7);
        }
    }
    Ok(result)
}

/// Decodes a functionDefinition record from the members of an object.
#[verifier::rlimit(100)]
#[verifier::spinoff_prover]
pub fn decode_function_definition(ps: &Vec<(String, JsonValue)>) -> (r: Result<FunctionDefinition, DecodeError>)
    ensures
        match r {
            Ok(x) => canon_fields(jv_pairs(ps@), schema(RecId::RFunctionDefinition), 0) == Ok::<
                Seq<(Seq<char>, JsonV)>,
                ErrV,
            >(enc_function_definition(x)),
            Err(e) => canon_fields(jv_pairs(ps@), schema(RecId::RFunctionDefinition), 0) == Err::<
                Seq<(Seq<char>, JsonV)>,
                ErrV,
            >(e.model()),
        },
    decreases jv_pairs(ps@), 5int, 0int,
{
    let ghost psv = jv_pairs(ps@);
    let ghost fs = schema(RecId::RFunctionDefinition);
    let id = match g_i64(ps, "id") {
        Ok(x) => x,
        Err(e) => {
            proof {
                lemma_canon_fields_first_err(psv, fs, 0, 0, e.model());
            }
            return Err(e);
        },
    };
    let name = match g_str(ps, "name") {
        Ok(x) => x,
        Err(e) => {
            proof {
                assert forall|m: int| 0 <= m < 1 implies canon_field(
                    psv,
                    (#[trigger] fs[m]).0,
                    fs[m].1,
                ) is Ok by {}
                lemma_canon_fields_first_err(psv, fs, 0, 1, e.model());
            }
            return Err(e);
        },
    };
    let is_virtual = match g_bool(ps, "virtual") {
        Ok(x) => x,
        Err(e) => {
            proof {
                assert forall|m: int| 0 <= m < 2 implies canon_field(
                    psv,
                    (#[trigger] fs[m]).0,
                    fs[m].1,
                ) is Ok by {}
                lemma_canon_fields_first_err(psv, fs, 0, 2, e.model());
            }
            return Err(e);
        },
    };
    let kind = match crate::ast::dec_leaf::g_enum_fk(ps, "kind") {
        Ok(x) => x,
        Err(e) => {
            proof {
                assert forall|m: int| 0 <= m < 3 implies canon_field(
                    psv,
                    (#[trigger] fs[m]).0,
                    fs[m].1,
                ) is Ok by {}
                lemma_canon_fields_first_err(psv, fs, 0, 3, e.model());
            }
            return Err(e);
        },
    };
    let visibility = match crate::ast::dec_leaf::g_enum_vis(ps, "visibility") {
        Ok(x) => x,
        Err(e) => {
            proof {
                assert forall|m: int| 0 <= m < 4 implies canon_field(
                    psv,
                    (#[trigger] fs[m]).0,
                    fs[m].1,
                ) is Ok by {}
                lemma_canon_fields_first_err(psv, fs, 0, 4, e.model());
            }
            return Err(e);
        },
    };
    let state_mutability = match crate::ast::dec_leaf::g_enum_sm(ps, "stateMutability") {
        Ok(x) => x,
        Err(e) => {
            proof {
                assert forall|m: int| 0 <= m < 5 implies canon_field(
                    psv,
                    (#[trigger] fs[m]).0,
                    fs[m].1,
                ) is Ok by {}
                lemma_canon_fields_first_err(psv, fs, 0, 5, e.model());
            }
            return Err(e);
        },
    };
    let body = match crate::ast::dec_stmt::g_oc_block(ps, "body") {
        Ok(x) => x,
        Err(e) => {
            proof {
                assert forall|m: int| 0 <= m < 6 implies canon_field(
                    psv,
                    (#[trigger] fs[m]).0,
                    fs[m].1,
                ) is Ok by {}
                lemma_canon_fields_first_err(psv, fs, 0, 6, e.model());
            }
            return Err(e);
        },
    };
    let parameters = match g_c_parameter_list(ps, "parameters") {
        Ok(x) => x,
        Err(e) => {
            proof {
                assert forall|m: int| 0 <= m < 7 implies canon_field(
                    psv,
                    (#[trigger] fs[m]).0,
                    fs[m].1,
                ) is Ok by {}
                lemma_canon_fields_first_err(psv, fs, 0, 7, e.model());
            }
            return Err(e);
        },
    };
    let return_parameters = match g_c_parameter_list(ps, "returnParameters") {
        Ok(x) => x,
        Err(e) => {
            proof {
                assert forall|m: int| 0 <= m < 8 implies canon_field(
                    psv,
                    (#[trigger] fs[m]).0,
                    fs[m].1,
                ) is Ok by {}
                lemma_canon_fields_first_err(psv, fs, 0, 8, e.model());
            }
            return Err(e);
        },
    };
    let modifiers = match g_ac_modifier_invocation(ps, "modifiers") {
        Ok(x) => x,
        Err(e) => {
            proof {
                assert forall|m: int| 0 <= m < 9 implies canon_field(
                    psv,
                    (#[trigger] fs[m]).0,
                    fs[m].1,
                ) is Ok by {}
                lemma_canon_fields_first_err(psv, fs, 0, 9, e.model());
            }
            return Err(e);
        },
    };
    let src = match g_src(ps, "src") {
        Ok(x) => x,
        Err(e) => {
            proof {
                assert forall|m: int| 0 <= m < 10 implies canon_field(
                    psv,
                    (#[trigger] fs[m]).0,
                    fs[m].1,
                ) is Ok by {}
                lemma_canon_fields_first_err(psv, fs, 0, 10, e.model());
            }
            return Err(e);
        },
    };
    let scope = match g_i64(ps, "scope") {
        Ok(x) => x,
        Err(e) => {
            proof {
                assert forall|m: int| 0 <= m < 11 implies canon_field(
                    psv,
                    (#[trigger] fs[m]).0,
                    fs[m].1,
                ) is Ok by {}
                lemma_canon_fields_first_err(psv, fs, 0, 11, e.model());
            }
            return Err(e);
        },
    };
    let implemented = match g_bool(ps, "implemented") {
        Ok(x) => x,
        Err(e) => {
            proof {
                assert forall|m: int| 0 <= m < 12 implies canon_field(
                    psv,
                    (#[trigger] fs[m]).0,
                    fs[m].1,
                ) is Ok by {}
                lemma_canon_fields_first_err(psv, fs, 0, 12, e.model());
            }
            return Err(e);
        },
    };
    let documentation = match crate::ast::dec_leaf::g_oc_doc(ps, "documentation") {
        Ok(x) => x,
        Err(e) => {
            proof {
                assert forall|m: int| 0 <= m < 13 implies canon_field(
                    psv,
                    (#[trigger] fs[m]).0,
                    fs[m].1,
                ) is Ok by {}
                lemma_canon_fields_first_err(psv, fs, 0, 13, e.model());
            }
            return Err(e);
        },
    };
    let overrides = match crate::ast::dec_leaf::g_oc_override_specifier(ps, "overrides") {
        Ok(x) => x,
        Err(e) => {
            proof {
                assert forall|m: int| 0 <= m < 14 implies canon_field(
                    psv,
                    (#[trigger] fs[m]).0,
                    fs[m].1,
                ) is Ok by {}
                lemma_canon_fields_first_err(psv, fs, 0, 14, e.model());
            }
            return Err(e);
        },
    };
    let base_functions = match g_opt_arr_i64(ps, "baseFunctions") {
        Ok(x) => x,
        Err(e) => {
            proof {
                assert forall|m: int| 0 <= m < 15 implies canon_field(
                    psv,
                    (#[trigger] fs[m]).0,
                    fs[m].1,
                ) is Ok by {}
                lemma_canon_fields_first_err(psv, fs, 0, 15, e.model());
            }
            return Err(e);
        },
    };
    let function_selector = match g_opt_str(ps, "functionSelector") {
        Ok(x) => x,
        Err(e) => {
            proof {
                assert forall|m: int| 0 <= m < 16 implies canon_field(
                    psv,
                    (#[trigger] fs[m]).0,
                    fs[m].1,
                ) is Ok by {}
                lemma_canon_fields_first_err(psv, fs, 0, 16, e.model());
            }
            return Err(e);
        },
    };
    let name_location = match g_opt_str(ps, "nameLocation") {
        Ok(x) => x,
        Err(e) => {
            proof {
                assert forall|m: int| 0 <= m < 17 implies canon_field(
                    psv,
                    (#[trigger] fs[m]).0,
                    fs[m].1,
                ) is Ok by {}
                lemma_canon_fields_first_err(psv, fs, 0, 17, e.model());
            }
            return Err(e);
        },
    };
    let result = FunctionDefinition { id, name, is_virtual, kind, visibility, state_mutability, body, parameters, return_parameters, modifiers, src, scope, implemented, documentation, overrides, base_functions, function_selector, name_location };
    let ghost outs: Seq<(Seq<char>, Option<JsonV>)> = seq![
        ("id"@, Some(JsonV::Int(result.id as int))),
        ("name"@, Some(JsonV::Str(result.name@))),
        ("virtual"@, Some(JsonV::Bool(result.is_virtual))),
        ("kind"@, Some(JsonV::Str(spell_fk(result.kind)))),
        ("visibility"@, Some(JsonV::Str(spell_vis(result.visibility)))),
        ("stateMutability"@, Some(JsonV::Str(spell_sm(result.state_mutability)))),
        ("body"@, Some(opt_block_of(result.body))),
        ("parameters"@, Some(JsonV::Obj(enc_parameter_list(result.parameters)))),
        ("returnParameters"@, Some(JsonV::Obj(enc_parameter_list(result.return_parameters)))),
        ("modifiers"@, Some(JsonV::Arr(seq_modifier_invocation_of(result.modifiers@)))),
        ("src"@, Some(JsonV::Str(spec_encode_location(result.src)))),
        ("scope"@, Some(JsonV::Int(result.scope as int))),
        ("implemented"@, Some(JsonV::Bool(result.implemented))),
        ("documentation"@, Some(opt_doc_of(result.documentation))),
        ("overrides"@, Some(opt_override_specifier_of(result.overrides))),
        ("baseFunctions"@, Some(opt_arr_ints_of(result.base_functions))),
        ("functionSelector"@, Some(opt_str_of(result.function_selector))),
        ("nameLocation"@, Some(opt_str_of(result.name_location))),
    ];
    proof {
        assert forall|j: int| 0 <= j < fs.len() implies (#[trigger] outs[j]).0 == fs[j].0
            && canon_field(psv, fs[j].0, fs[j].1) == Ok::<Option<JsonV>, ErrV>(outs[j].1) by {}
        lemma_canon_fields_ok(psv, fs, outs, 0);
        assert(cat_opts(outs, 0) =~= enc_function_definition(result)) by {
            reveal_with_fuel(cat_opts, 20);
        }
    }
    Ok(result)
}

/// Decodes a modifierDefinition record from the members of an object.
#[verifier::rlimit(80)]
pub fn decode_modifier_definition(ps: &Vec<(String, JsonValue)>) -> (r: Result<ModifierDefinition, DecodeError>)
    ensures
        match r {
            Ok(x) => canon_fields(jv_pairs(ps@), schema(RecId::RModifierDefinition), 0) == Ok::<
                Seq<(Seq<char>, JsonV)>,
                ErrV,
            >(enc_modifier_definition(x)),
            Err(e) => canon_fields(jv_pairs(ps@), schema(RecId::RModifierDefinition), 0) == Err::<
                Seq<(Seq<char>, JsonV)>,
                ErrV,
            >(e.model()),
        },
    decreases jv_pairs(ps@), 5int, 0int,
{
    let ghost psv = jv_pairs(ps@);
    let ghost fs = schema(RecId::RModifierDefinition);
    let id = match g_i64(ps, "id") {
        Ok(x) => x,
        Err(e) => {
            proof {
                lemma_canon_fields_first_err(psv, fs, 0, 0, e.model());
            }
            return Err(e);
        },
    };
    let name = match g_str(ps, "name") {
        Ok(x) => x,
        Err(e) => {
            proof {
                assert forall|m: int| 0 <= m < 1 implies canon_field(
                    psv,
                    (#[trigger] fs[m]).0,
                    fs[m].1,
                ) is Ok by {}
                lemma_canon_fields_first_err(psv, fs, 0, 1, e.model());
            }
            return Err(e);
        },
    };
    let is_virtual = match g_bool(ps, "virtual") {
        Ok(x) => x,
        Err(e) => {
            proof {
                assert forall|m: int| 0 <= m < 2 implies canon_field(
                    psv,
                    (#[trigger] fs[m]).0,
                    fs[m].1,
                ) is Ok by {}
                lemma_canon_fields_first_err(psv, fs, 0, 2, e.model());
            }
            return Err(e);
        },
    };
    let visibility = match crate::ast::dec_leaf::g_enum_vis(ps, "visibility") {
        Ok(x) => x,
        Err(e) => {
            proof {
                assert forall|m: int| 0 <= m < 3 implies canon_field(
                    psv,
                    (#[trigger] fs[m]).0,
                    fs[m].1,
                ) is Ok by {}
                lemma_canon_fields_first_err(psv, fs, 0, 3, e.model());
            }
            return Err(e);
        },
    };
    let parameters = match g_c_parameter_list(ps, "parameters") {
        Ok(x) => x,
        Err(e) => {
            proof {
                assert forall|m: int| 0 <= m < 4 implies canon_field(
                    psv,
                    (#[trigger] fs[m]).0,
                    fs[m].1,
                ) is Ok by {}
                lemma_canon_fields_first_err(psv, fs, 0, 4, e.model());
            }
            return Err(e);
        },
    };
    let body = match crate::ast::dec_stmt::g_oc_block(ps, "body") {
        Ok(x) => x,
        Err(e) => {
            proof {
                assert forall|m: int| 0 <= m < 5 implies canon_field(
                    psv,
                    (#[trigger] fs[m]).0,
                    fs[m].1,
                ) is Ok by {}
                lemma_canon_fields_first_err(psv, fs, 0, 5, e.model());
            }
            return Err(e);
        },
    };
    let src = match g_src(ps, "src") {
        Ok(x) => x,
        Err(e) => {
            proof {
                assert forall|m: int| 0 <= m < 6 implies canon_field(
                    psv,
                    (#[trigger] fs[m]).0,
                    fs[m].1,
                ) is Ok by {}
                lemma_canon_fields_first_err(psv, fs, 0, 6, e.model());
            }
            return Err(e);
        },
    };
    let scope = match g_opt_i64(ps, "scope") {
        Ok(x) => x,
        Err(e) => {
            proof {
                assert forall|m: int| 0 <= m < 7 implies canon_field(
                    psv,
                    (#[trigger] fs[m]).0,
                    fs[m].1,
                ) is Ok by {}
                lemma_canon_fields_first_err(psv, fs, 0, 7, e.model());
            }
            return Err(e);
        },
    };
    let documentation = match crate::ast::dec_leaf::g_oc_doc(ps, "documentation") {
        Ok(x) => x,
        Err(e) => {
            proof {
                assert forall|m: int| 0 <= m < 8 implies canon_field(
                    psv,
                    (#[trigger] fs[m]).0,
                    fs[m].1,
                ) is Ok by {}
                lemma_canon_fields_first_err(psv, fs, 0, 8, e.model());
            }
            return Err(e);
        },
    };
    let overrides = match crate::ast::dec_leaf::g_oc_override_specifier(ps, "overrides") {
        Ok(x) => x,
        Err(e) => {
            proof {
                assert forall|m: int| 0 <= m < 9 implies canon_field(
                    psv,
                    (#[trigger] fs[m]).0,
                    fs[m].1,
                ) is Ok by {}
                lemma_canon_fields_first_err(psv, fs, 0, 9, e.model());
            }
            return Err(e);
        },
    };
    let result = ModifierDefinition { id, name, is_virtual, visibility, parameters, body, src, scope, documentation, overrides };
    let ghost outs: Seq<(Seq<char>, Option<JsonV>)> = seq![
        ("id"@, Some(JsonV::Int(result.id as int))),
        ("name"@, Some(JsonV::Str(result.name@))),
        ("virtual"@, Some(JsonV::Bool(result.is_virtual))),
        ("visibility"@, Some(JsonV::Str(spell_vis(result.visibility)))),
        ("parameters"@, Some(JsonV::Obj(enc_parameter_list(result.parameters)))),
        ("body"@, Some(opt_block_of(result.body))),
        ("src"@, Some(JsonV::Str(spec_encode_location(result.src)))),
        ("scope"@, Some(opt_int_of(result.scope))),
        ("documentation"@, Some(opt_doc_of(result.documentation))),
        ("overrides"@, Some(opt_override_specifier_of(result.overrides))),
    ];
    proof {
        assert forall|j: int| 0 <= j < fs.len() implies (#[trigger] outs[j]).0 == fs[j].0
            && canon_field(psv, fs[j].0, fs[j].1) == Ok::<Option<JsonV>, ErrV>(outs[j].1) by {}
        lemma_canon_fields_ok(psv, fs, outs, 0);
        assert(cat_opts(outs, 0) =~= enc_modifier_definition(result)) by {
            reveal_with_fuel(cat_opts, 12);
        }
    }
    Ok(result)
}

/// Decodes a enumDefinition record from the members of an object.
pub fn decode_enum_definition(ps: &Vec<(String, JsonValue)>) -> (r: Result<EnumDefinition, DecodeError>)
    ensures
        match r {
            Ok(x) => canon_fields(jv_pairs(ps@), schema(RecId::REnumDefinition), 0) == Ok::<
                Seq<(Seq<char>, JsonV)>,
                ErrV,
            >(enc_enum_definition(x)),
            Err(e) => canon_fields(jv_pairs(ps@), schema(RecId::REnumDefinition), 0) == Err::<
                Seq<(Seq<char>, JsonV)>,
                ErrV,
            >(e.model()),
        },
    decreases jv_pairs(ps@), 5int, 0int,
{
    let ghost psv = jv_pairs(ps@);
    let ghost fs = schema(RecId::REnumDefinition);
    let id = match g_i64(ps, "id") {
        Ok(x) => x,
        Err(e) => {
            proof {
                lemma_canon_fields_first_err(psv, fs, 0, 0, e.model());
            }
            return Err(e);
        },
    };
    let name = match g_str(ps, "name") {
        Ok(x) => x,
        Err(e) => {
            proof {
                assert forall|m: int| 0 <= m < 1 implies canon_field(
                    psv,
                    (#[trigger] fs[m]).0,
                    fs[m].1,
                ) is Ok by {}
                lemma_canon_fields_first_err(psv, fs, 0, 1, e.model());
            }
            return Err(e);
        },
    };
    let members = match crate::ast::dec_leaf::g_ac_enum_value(ps, "members") {
        Ok(x) => x,
        Err(e) => {
            proof {
                assert forall|m: int| 0 <= m < 2 implies canon_field(
                    psv,
                    (#[trigger] fs[m]).0,
                    fs[m].1,
                ) is Ok by {}
                lemma_canon_fields_first_err(psv, fs, 0, 2, e.model());
            }
            return Err(e);
        },
    };
    let src = match g_src(ps, "src") {
        Ok(x) => x,
        Err(e) => {
            proof {
                assert forall|m: int| 0 <= m < 3 implies canon_field(
                    psv,
                    (#[trigger] fs[m]).0,
                    fs[m].1,
                ) is Ok by {}
                lemma_canon_fields_first_err(psv, fs, 0, 3, e.model());
            }
            return Err(e);
        },
    };
    let scope = match g_opt_i64(ps, "scope") {
        Ok(x) => x,
        Err(e) => {
            proof {
                assert forall|m: int| 0 <= m < 4 implies canon_field(
                    psv,
                    (#[trigger] fs[m]).0,
                    fs[m].1,
                ) is Ok by {}
                lemma_canon_fields_first_err(psv, fs, 0, 4, e.model());
            }
            return Err(e);
        },
    };
    let documentation = match crate::ast::dec_leaf::g_oc_doc(ps, "documentation") {
        Ok(x) => x,
        Err(e) => {
            proof {
                assert forall|m: int| 0 <= m < 5 implies canon_field(
                    psv,
                    (#[trigger] fs[m]).0,
                    fs[m].1,
                ) is Ok by {}
                lemma_canon_fields_first_err(psv, fs, 0, 5, e.model());
            }
            return Err(e);
        },
    };
    let canonical_name = match g_opt_str(ps, "canonicalName") {
        Ok(x) => x,
        Err(e) => {
            proof {
                assert forall|m: int| 0 <= m < 6 implies canon_field(
                    psv,
                    (#[trigger] fs[m]).0,
                    fs[m].1,
                ) is Ok by {}
                lemma_canon_fields_first_err(psv, fs, 0, 6, e.model());
            }
            return Err(e);
        },
    };
    let result = EnumDefinition { id, name, members, src, scope, documentation, canonical_name };
    let ghost outs: Seq<(Seq<char>, Option<JsonV>)> = seq![
        ("id"@, Some(JsonV::Int(result.id as int))),
        ("name"@, Some(JsonV::Str(result.name@))),
        ("members"@, Some(JsonV::Arr(seq_enum_value_of(result.members@)))),
        ("src"@, Some(JsonV::Str(spec_encode_location(result.src)))),
        ("scope"@, Some(opt_int_of(result.scope))),
        ("documentation"@, Some(opt_doc_of(result.documentation))),
        ("canonicalName"@, Some(opt_str_of(result.canonical_name))),
    ];
    proof {
        assert forall|j: int| 0 <= j < fs.len() implies (#[trigger] outs[j]).0 == fs[j].0
            && canon_field(psv, fs[j].0, fs[j].1) == Ok::<Option<JsonV>, ErrV>(outs[j].1) by {}
        lemma_canon_fields_ok(psv, fs, outs, 0);
        assert(cat_opts(outs, 0) =~= enc_enum_definition(result)) by {
            reveal_with_fuel(cat_opts, 9);
        }
    }
    Ok(result)
}

/// Decodes a userDefinedValueTypeDefinition record from the members of an object.
pub fn decode_user_defined_value_type_definition(ps: &Vec<(String, JsonValue)>) -> (r: Result<UserDefinedValueTypeDefinition, DecodeError>)
    ensures
        match r {
            Ok(x) => canon_fields(jv_pairs(ps@), schema(RecId::RUserDefinedValueTypeDefinition), 0) == Ok::<
                Seq<(Seq<char>, JsonV)>,
                ErrV,
            >(enc_user_defined_value_type_definition(x)),
            Err(e) => canon_fields(jv_pairs(ps@), schema(RecId::RUserDefinedValueTypeDefinition), 0) == Err::<
                Seq<(Seq<char>, JsonV)>,
                ErrV,
            >(e.model()),
        },
    decreases jv_pairs(ps@), 5int, 0int,
{
    let ghost psv = jv_pairs(ps@);
    let ghost fs = schema(RecId::RUserDefinedValueTypeDefinition);
    let id = match g_i64(ps, "id") {
        Ok(x) => x,
        Err(e) => {
            proof {
                lemma_canon_fields_first_err(psv, fs, 0, 0, e.model());
            }
            return Err(e);
        },
    };
    let name = match g_str(ps, "name") {
        Ok(x) => x,
        Err(e) => {
            proof {
                assert forall|m: int| 0 <= m < 1 implies canon_field(
                    psv,
                    (#[trigger] fs[m]).0,
                    fs[m].1,
                ) is Ok by {}
                lemma_canon_fields_first_err(psv, fs, 0, 1, e.model());
            }
            return Err(e);
        },
    };
    let src = match g_src(ps, "src") {
        Ok(x) => x,
        Err(e) => {
            proof {
                assert forall|m: int| 0 <= m < 2 implies canon_field(
                    psv,
                    (#[trigger] fs[m]).0,
                    fs[m].1,
                ) is Ok by {}
                lemma_canon_fields_first_err(psv, fs, 0, 2, e.model());
            }
            return Err(e);
        },
    };
    let canonical_name = match g_opt_str(ps, "canonicalName") {
        Ok(x) => x,
        Err(e) => {
            proof {
                assert forall|m: int| 0 <= m < 3 implies canon_field(
                    psv,
                    (#[trigger] fs[m]).0,
                    fs[m].1,
                ) is Ok by {}
                lemma_canon_fields_first_err(psv, fs, 0, 3, e.model());
            }
            return Err(e);
        },
    };
    let name_location = match g_opt_str(ps, "nameLocation") {
        Ok(x) => x,
        Err(e) => {
            proof {
                assert forall|m: int| 0 <= m < 4 implies canon_field(
                    psv,
                    (#[trigger] fs[m]).0,
                    fs[m].1,
                ) is Ok by {}
                lemma_canon_fields_first_err(psv, fs, 0, 4, e.model());
            }
            return Err(e);
        },
    };
    let underlying_type = match crate::ast::dec_type::g_c_type_name(ps, "underlyingType") {
        Ok(x) => x,
        Err(e) => {
            proof {
                assert forall|m: int| 0 <= m < 5 implies canon_field(
                    psv,
                    (#[trigger] fs[m]).0,
                    fs[m].1,
                ) is Ok by {}
                lemma_canon_fields_first_err(psv, fs, 0, 5, e.model());
            }
            return Err(e);
        },
    };
    let result = UserDefinedValueTypeDefinition { id, name, src, canonical_name, name_location, underlying_type };
    let ghost outs: Seq<(Seq<char>, Option<JsonV>)> = seq![
        ("id"@, Some(JsonV::Int(result.id as int))),
        ("name"@, Some(JsonV::Str(result.name@))),
        ("src"@, Some(JsonV::Str(spec_encode_location(result.src)))),
        ("canonicalName"@, Some(opt_str_of(result.canonical_name))),
        ("nameLocation"@, Some(opt_str_of(result.name_location))),
        ("underlyingType"@, Some(enc_type_name(result.underlying_type))),
    ];
    proof {
        assert forall|j: int| 0 <= j < fs.len() implies (#[trigger] outs[j]).0 == fs[j].0
            && canon_field(psv, fs[j].0, fs[j].1) == Ok::<Option<JsonV>, ErrV>(outs[j].1) by {}
        lemma_canon_fields_ok(psv, fs, outs, 0);
        assert(cat_opts(outs, 0) =~= enc_user_defined_value_type_definition(result)) by {
            reveal_with_fuel(cat_opts, 8);
        }
    }
    Ok(result)
}

/// Decodes a errorDefinition record from the members of an object.
pub fn decode_error_definition(ps: &Vec<(String, JsonValue)>) -> (r: Result<ErrorDefinition, DecodeError>)
    ensures
        match r {
            Ok(x) => canon_fields(jv_pairs(ps@), schema(RecId::RErrorDefinition), 0) == Ok::<
                Seq<(Seq<char>, JsonV)>,
                ErrV,
            >(enc_error_definition(x)),
            Err(e) => canon_fields(jv_pairs(ps@), schema(RecId::RErrorDefinition), 0) == Err::<
                Seq<(Seq<char>, JsonV)>,
                ErrV,
            >(e.model()),
        },
    decreases jv_pairs(ps@), 5int, 0int,
{
    let ghost psv = jv_pairs(ps@);
    let ghost fs = schema(RecId::RErrorDefinition);
    let id = match g_i64(ps, "id") {
        Ok(x) => x,
        Err(e) => {
            proof {
                lemma_canon_fields_first_err(psv, fs, 0, 0, e.model());
            }
            return Err(e);
        },
    };
    let name = match g_str(ps, "name") {
        Ok(x) => x,
        Err(e) => {
            proof {
                assert forall|m: int| 0 <= m < 1 implies canon_field(
                    psv,
                    (#[trigger] fs[m]).0,
                    fs[m].1,
                ) is Ok by {}
                lemma_canon_fields_first_err(psv, fs, 0, 1, e.model());
            }
            return Err(e);
        },
    };
    let parameters = match g_c_parameter_list(ps, "parameters") {
        Ok(x) => x,
        Err(e) => {
            proof {
                assert forall|m: int| 0 <= m < 2 implies canon_field(
                    psv,
                    (#[trigger] fs[m]).0,
                    fs[m].1,
                ) is Ok by {}
                lemma_canon_fields_first_err(psv, fs, 0, 2, e.model());
            }
            return Err(e);
        },
    };
    let src = match g_src(ps, "src") {
        Ok(x) => x,
        Err(e) => {
            proof {
                assert forall|m: int| 0 <= m < 3 implies canon_field(
                    psv,
                    (#[trigger] fs[m]).0,
                    fs[m].1,
                ) is Ok by {}
                lemma_canon_fields_first_err(psv, fs, 0, 3, e.model());
            }
            return Err(e);
        },
    };
    let scope = match g_opt_i64(ps, "scope") {
        Ok(x) => x,
        Err(e) => {
            proof {
                assert forall|m: int| 0 <= m < 4 implies canon_field(
                    psv,
                    (#[trigger] fs[m]).0,
                    fs[m].1,
                ) is Ok by {}
                lemma_canon_fields_first_err(psv, fs, 0, 4, e.model());
            }
            return Err(e);
        },
    };
    let documentation = match crate::ast::dec_leaf::g_oc_doc(ps, "documentation") {
        Ok(x) => x,
        Err(e) => {
            proof {
                assert forall|m: int| 0 <= m < 5 implies canon_field(
                    psv,
                    (#[trigger] fs[m]).0,
                    fs[m].1,
                ) is Ok by {}
                lemma_canon_fields_first_err(psv, fs, 0, 5, e.model());
            }
            return Err(e);
        },
    };
    let result = ErrorDefinition { id, name, parameters, src, scope, documentation };
    let ghost outs: Seq<(Seq<char>, Option<JsonV>)> = seq![
        ("id"@, Some(JsonV::Int(result.id as int))),
        ("name"@, Some(JsonV::Str(result.name@))),
        ("parameters"@, Some(JsonV::Obj(enc_parameter_list(result.parameters)))),
        ("src"@, Some(JsonV::Str(spec_encode_location(result.src)))),
        ("scope"@, Some(opt_int_of(result.scope))),
        ("documentation"@, Some(opt_doc_of(result.documentation))),
    ];
    proof {
        assert forall|j: int| 0 <= j < fs.len() implies (#[trigger] outs[j]).0 == fs[j].0
            && canon_field(psv, fs[j].0, fs[j].1) == Ok::<Option<JsonV>, ErrV>(outs[j].1) by {}
        lemma_canon_fields_ok(psv, fs, outs, 0);
        assert(cat_opts(outs, 0) =~= enc_error_definition(result)) by {
            reveal_with_fuel(cat_opts, 8);
        }
    }
    Ok(result)
}

/// Decodes a eventDefinition record from the members of an object.
pub fn decode_event_definition(ps: &Vec<(String, JsonValue)>) -> (r: Result<EventDefinition, DecodeError>)
    ensures
        match r {
            Ok(x) => canon_fields(jv_pairs(ps@), schema(RecId::REventDefinition), 0) == Ok::<
                Seq<(Seq<char>, JsonV)>,
                ErrV,
            >(enc_event_definition(x)),
            Err(e) => canon_fields(jv_pairs(ps@), schema(RecId::REventDefinition), 0) == Err::<
                Seq<(Seq<char>, JsonV)>,
                ErrV,
            >(e.model()),
        },
    decreases jv_pairs(ps@), 5int, 0int,
{
    let ghost psv = jv_pairs(ps@);
    let ghost fs = schema(RecId::REventDefinition);
    let id = match g_i64(ps, "id") {
        Ok(x) => x,
        Err(e) => {
            proof {
                lemma_canon_fields_first_err(psv, fs, 0, 0, e.model());
            }
            return Err(e);
        },
    };
    let name = match g_str(ps, "name") {
        Ok(x) => x,
        Err(e) => {
            proof {
                assert forall|m: int| 0 <= m < 1 implies canon_field(
                    psv,
                    (#[trigger] fs[m]).0,
                    fs[m].1,
                ) is Ok by {}
                lemma_canon_fields_first_err(psv, fs, 0, 1, e.model());
            }
            return Err(e);
        },
    };
    let anonymous = match g_bool(ps, "anonymous") {
        Ok(x) => x,
        Err(e) => {
            proof {
                assert forall|m: int| 0 <= m < 2 implies canon_field(
                    psv,
                    (#[trigger] fs[m]).0,
                    fs[m].1,
                ) is Ok by {}
                lemma_canon_fields_first_err(psv, fs, 0, 2, e.model());
            }
            return Err(e);
        },
    };
    let event_selector = match g_opt_str(ps, "eventSelector") {
        Ok(x) => x,
        Err(e) => {
            proof {
                assert forall|m: int| 0 <= m < 3 implies canon_field(
                    psv,
                    (#[trigger] fs[m]).0,
                    fs[m].1,
                ) is Ok by {}
                lemma_canon_fields_first_err(psv, fs, 0, 3, e.model());
            }
            return Err(e);
        },
    };
    let parameters = match g_c_parameter_list(ps, "parameters") {
        Ok(x) => x,
        Err(e) => {
            proof {
                assert forall|m: int| 0 <= m < 4 implies canon_field(
                    psv,
                    (#[trigger] fs[m]).0,
                    fs[m].1,
                ) is Ok by {}
                lemma_canon_fields_first_err(psv, fs, 0, 4, e.model());
            }
            return Err(e);
        },
    };
    let src = match g_src(ps, "src") {
        Ok(x) => x,
        Err(e) => {
            proof {
                assert forall|m: int| 0 <= m < 5 implies canon_field(
                    psv,
                    (#[trigger] fs[m]).0,
                    fs[m].1,
                ) is Ok by {}
                lemma_canon_fields_first_err(psv, fs, 0, 5, e.model());
            }
            return Err(e);
        },
    };
    let scope = match g_opt_i64(ps, "scope") {
        Ok(x) => x,
        Err(e) => {
            proof {
                assert forall|m: int| 0 <= m < 6 implies canon_field(
                    psv,
                    (#[trigger] fs[m]).0,
                    fs[m].1,
                ) is Ok by {}
                lemma_canon_fields_first_err(psv, fs, 0, 6, e.model());
            }
            return Err(e);
        },
    };
    let name_location = match g_opt_str(ps, "nameLocation") {
        Ok(x) => x,
        Err(e) => {
            proof {
                assert forall|m: int| 0 <= m < 7 implies canon_field(
                    psv,
                    (#[trigger] fs[m]).0,
                    fs[m].1,
                ) is Ok by {}
                lemma_canon_fields_first_err(psv, fs, 0, 7, e.model());
            }
            return Err(e);
        },
    };
    let documentation = match crate::ast::dec_leaf::g_oc_doc(ps, "documentation") {
        Ok(x) => x,
        Err(e) => {
            proof {
                assert forall|m: int| 0 <= m < 8 implies canon_field(
                    psv,
                    (#[trigger] fs[m]).0,
                    fs[m].1,
                ) is Ok by {}
                lemma_canon_fields_first_err(psv, fs, 0, 8, e.model());
            }
            return Err(e);
        },
    };
    let result = EventDefinition { id, name, anonymous, event_selector, parameters, src, scope, name_location, documentation };
    let ghost outs: Seq<(Seq<char>, Option<JsonV>)> = seq![
        ("id"@, Some(JsonV::Int(result.id as int))),
        ("name"@, Some(JsonV::Str(result.name@))),
        ("anonymous"@, Some(JsonV::Bool(result.anonymous))),
        ("eventSelector"@, Some(opt_str_of(result.event_selector))),
        ("parameters"@, Some(JsonV::Obj(enc_parameter_list(result.parameters)))),
        ("src"@, Some(JsonV::Str(spec_encode_location(result.src)))),
        ("scope"@, Some(opt_int_of(result.scope))),
        ("nameLocation"@, Some(opt_str_of(result.name_location))),
        ("documentation"@, Some(opt_doc_of(result.documentation))),
    ];
    proof {
        assert forall|j: int| 0 <= j < fs.len() implies (#[trigger] outs[j]).0 == fs[j].0
            && canon_field(psv, fs[j].0, fs[j].1) == Ok::<Option<JsonV>, ErrV>(outs[j].1) by {}
        lemma_canon_fields_ok(psv, fs, outs, 0);
        assert(cat_opts(outs, 0) =~= enc_event_definition(result)) by {
            reveal_with_fuel(cat_opts, 11);
        }
    }
    Ok(result)
}

/// Decodes a structDefinition record from the members of an object.
pub fn decode_struct_definition(ps: &Vec<(String, JsonValue)>) -> (r: Result<StructDefinition, DecodeError>)
    ensures
        match r {
            Ok(x) => canon_fields(jv_pairs(ps@), schema(RecId::RStructDefinition), 0) == Ok::<
                Seq<(Seq<char>, JsonV)>,
                ErrV,
            >(enc_struct_definition(x)),
            Err(e) => canon_fields(jv_pairs(ps@), schema(RecId::RStructDefinition), 0) == Err::<
                Seq<(Seq<char>, JsonV)>,
                ErrV,
            >(e.model()),
        },
    decreases jv_pairs(ps@), 5int, 0int,
{
    let ghost psv = jv_pairs(ps@);
    let ghost fs = schema(RecId::RStructDefinition);
    let id = match g_i64(ps, "id") {
        Ok(x) => x,
        Err(e) => {
            proof {
                lemma_canon_fields_first_err(psv, fs, 0, 0, e.model());
            }
            return Err(e);
        },
    };
    let name = match g_str(ps, "name") {
        Ok(x) => x,
        Err(e) => {
            proof {
                assert forall|m: int| 0 <= m < 1 implies canon_field(
                    psv,
                    (#[trigger] fs[m]).0,
                    fs[m].1,
                ) is Ok by {}
                lemma_canon_fields_first_err(psv, fs, 0, 1, e.model());
            }
            return Err(e);
        },
    };
    let members = match g_ac_variable_declaration(ps, "members") {
        Ok(x) => x,
        Err(e) => {
            proof {
                assert forall|m: int| 0 <= m < 2 implies canon_field(
                    psv,
                    (#[trigger] fs[m]).0,
                    fs[m].1,
                ) is Ok by {}
                lemma_canon_fields_first_err(psv, fs, 0, 2, e.model());
            }
            return Err(e);
        },
    };
    let src = match g_src(ps, "src") {
        Ok(x) => x,
        Err(e) => {
            proof {
                assert forall|m: int| 0 <= m < 3 implies canon_field(
                    psv,
                    (#[trigger] fs[m]).0,
                    fs[m].1,
                ) is Ok by {}
                lemma_canon_fields_first_err(psv, fs, 0, 3, e.model());
            }
            return Err(e);
        },
    };
    let scope = match g_opt_i64(ps, "scope") {
        Ok(x) => x,
        Err(e) => {
            proof {
                assert forall|m: int| 0 <= m < 4 implies canon_field(
                    psv,
                    (#[trigger] fs[m]).0,
                    fs[m].1,
                ) is Ok by {}
                lemma_canon_fields_first_err(psv, fs, 0, 4, e.model());
            }
            return Err(e);
        },
    };
    let documentation = match crate::ast::dec_leaf::g_oc_doc(ps, "documentation") {
        Ok(x) => x,
        Err(e) => {
            proof {
                assert forall|m: int| 0 <= m < 5 implies canon_field(
                    psv,
                    (#[trigger] fs[m]).0,
                    fs[m].1,
                ) is Ok by {}
                lemma_canon_fields_first_err(psv, fs, 0, 5, e.model());
            }
            return Err(e);
        },
    };
    let canonical_name = match g_opt_str(ps, "canonicalName") {
        Ok(x) => x,
        Err(e) => {
            proof {
                assert forall|m: int| 0 <= m < 6 implies canon_field(
                    psv,
                    (#[trigger] fs[m]).0,
                    fs[m].1,
                ) is Ok by {}
                lemma_canon_fields_first_err(psv, fs, 0, 6, e.model());
            }
            return Err(e);
        },
    };
    let used_in_events = match g_opt_bool(ps, "usedInEvents") {
        Ok(x) => x,
        Err(e) => {
            proof {
                assert forall|m: int| 0 <= m < 7 implies canon_field(
                    psv,
                    (#[trigger] fs[m]).0,
                    fs[m].1,
                ) is Ok by {}
                lemma_canon_fields_first_err(psv, fs, 0, 7, e.model());
            }
            return Err(e);
        },
    };
    let result = StructDefinition { id, name, members, src, scope, documentation, canonical_name, used_in_events };
    let ghost outs: Seq<(Seq<char>, Option<JsonV>)> = seq![
        ("id"@, Some(JsonV::Int(result.id as int))),
        ("name"@, Some(JsonV::Str(result.name@))),
        ("members"@, Some(JsonV::Arr(seq_variable_declaration_of(result.members@)))),
        ("src"@, Some(JsonV::Str(spec_encode_location(result.src)))),
        ("scope"@, Some(opt_int_of(result.scope))),
        ("documentation"@, Some(opt_doc_of(result.documentation))),
        ("canonicalName"@, Some(opt_str_of(result.canonical_name))),
        ("usedInEvents"@, Some(opt_bool_of(result.used_in_events))),
    ];
    proof {
        assert forall|j: int| 0 <= j < fs.len() implies (#[trigger] outs[j]).0 == fs[j].0
            && canon_field(psv, fs[j].0, fs[j].1) == Ok::<Option<JsonV>, ErrV>(outs[j].1) by {}
        lemma_canon_fields_ok(psv, fs, outs, 0);
        assert(cat_opts(outs, 0) =~= enc_struct_definition(result)) by {
            reveal_with_fuel(cat_opts, 10);
        }
    }
    Ok(result)
}

/// Decodes a inheritanceSpecifier record from the members of an object.
pub fn decode_inheritance_specifier(ps: &Vec<(String, JsonValue)>) -> (r: Result<InheritanceSpecifier, DecodeError>)
    ensures
        match r {
            Ok(x) => canon_fields(jv_pairs(ps@), schema(RecId::RInheritanceSpecifier), 0) == Ok::<
                Seq<(Seq<char>, JsonV)>,
                ErrV,
            >(enc_inheritance_specifier(x)),
            Err(e) => canon_fields(jv_pairs(ps@), schema(RecId::RInheritanceSpecifier), 0) == Err::<
                Seq<(Seq<char>, JsonV)>,
                ErrV,
            >(e.model()),
        },
    decreases jv_pairs(ps@), 5int, 0int,
{
    let ghost psv = jv_pairs(ps@);
    let ghost fs = schema(RecId::RInheritanceSpecifier);
    let id = match g_i64(ps, "id") {
        Ok(x) => x,
        Err(e) => {
            proof {
                lemma_canon_fields_first_err(psv, fs, 0, 0, e.model());
            }
            return Err(e);
        },
    };
    let base_name = match crate::ast::dec_leaf::g_c_identifier_path(ps, "baseName") {
        Ok(x) => x,
        Err(e) => {
            proof {
                assert forall|m: int| 0 <= m < 1 implies canon_field(
                    psv,
                    (#[trigger] fs[m]).0,
                    fs[m].1,
                ) is Ok by {}
                lemma_canon_fields_first_err(psv, fs, 0, 1, e.model());
            }
            return Err(e);
        },
    };
    let arguments = match crate::ast::dec_expr::g_oac_expr(ps, "arguments") {
        Ok(x) => x,
        Err(e) => {
            proof {
                assert forall|m: int| 0 <= m < 2 implies canon_field(
                    psv,
                    (#[trigger] fs[m]).0,
                    fs[m].1,
                ) is Ok by {}
                lemma_canon_fields_first_err(psv, fs, 0, 2, e.model());
            }
            return Err(e);
        },
    };
    let src = match g_src(ps, "src") {
        Ok(x) => x,
        Err(e) => {
            proof {
                assert forall|m: int| 0 <= m < 3 implies canon_field(
                    psv,
                    (#[trigger] fs[m]).0,
                    fs[m].1,
                ) is Ok by {}
                lemma_canon_fields_first_err(psv, fs, 0, 3, e.model());
            }
            return Err(e);
        },
    };
    let result = InheritanceSpecifier { id, base_name, arguments, src };
    let ghost outs: Seq<(Seq<char>, Option<JsonV>)> = seq![
        ("id"@, Some(JsonV::Int(result.id as int))),
        ("baseName"@, Some(JsonV::Obj(enc_identifier_path(result.base_name)))),
        ("arguments"@, Some(opt_arr_expr_of(result.arguments))),
        ("src"@, Some(JsonV::Str(spec_encode_location(result.src)))),
    ];
    proof {
        assert forall|j: int| 0 <= j < fs.len() implies (#[trigger] outs[j]).0 == fs[j].0
            && canon_field(psv, fs[j].0, fs[j].1) == Ok::<Option<JsonV>, ErrV>(outs[j].1) by {}
        lemma_canon_fields_ok(psv, fs, outs, 0);
        assert(cat_opts(outs, 0) =~= enc_inheritance_specifier(result)) by {
            reveal_with_fuel(cat_opts, 6);
        }
    }
    Ok(result)
}

/// Decodes a usingForDirective record from the members of an object.
pub fn decode_using_for_directive(ps: &Vec<(String, JsonValue)>) -> (r: Result<UsingForDirective, DecodeError>)
    ensures
        match r {
            Ok(x) => canon_fields(jv_pairs(ps@), schema(RecId::RUsingForDirective), 0) == Ok::<
                Seq<(Seq<char>, JsonV)>,
                ErrV,
            >(enc_using_for_directive(x)),
            Err(e) => canon_fields(jv_pairs(ps@), schema(RecId::RUsingForDirective), 0) == Err::<
                Seq<(Seq<char>, JsonV)>,
                ErrV,
            >(e.model()),
        },
{
    let ghost psv = jv_pairs(ps@);
    let ghost fs = schema(RecId::RUsingForDirective);
    let id = match g_i64(ps, "id") {
        Ok(x) => x,
        Err(e) => {
            proof {
                lemma_canon_fields_first_err(psv, fs, 0, 0, e.model());
            }
            return Err(e);
        },
    };
    let library_name = match crate::ast::dec_leaf::g_oc_identifier_path(ps, "libraryName") {
        Ok(x) => x,
        Err(e) => {
            proof {
                assert forall|m: int| 0 <= m < 1 implies canon_field(
                    psv,
                    (#[trigger] fs[m]).0,
                    fs[m].1,
                ) is Ok by {}
                lemma_canon_fields_first_err(psv, fs, 0, 1, e.model());
            }
            return Err(e);
        },
    };
    let typename = match crate::ast::dec_type::g_oc_user_defined_type_name(ps, "typeName") {
        Ok(x) => x,
        Err(e) => {
            proof {
                assert forall|m: int| 0 <= m < 2 implies canon_field(
                    psv,
                    (#[trigger] fs[m]).0,
                    fs[m].1,
                ) is Ok by {}
                lemma_canon_fields_first_err(psv, fs, 0, 2, e.model());
            }
            return Err(e);
        },
    };
    let operations = match crate::ast::dec_leaf::g_opt_arr_str(ps, "operations") {
        Ok(x) => x,
        Err(e) => {
            proof {
                assert forall|m: int| 0 <= m < 3 implies canon_field(
                    psv,
                    (#[trigger] fs[m]).0,
                    fs[m].1,
                ) is Ok by {}
                lemma_canon_fields_first_err(psv, fs, 0, 3, e.model());
            }
            return Err(e);
        },
    };
    let src = match g_src(ps, "src") {
        Ok(x) => x,
        Err(e) => {
            proof {
                assert forall|m: int| 0 <= m < 4 implies canon_field(
                    psv,
                    (#[trigger] fs[m]).0,
                    fs[m].1,
                ) is Ok by {}
                lemma_canon_fields_first_err(psv, fs, 0, 4, e.model());
            }
            return Err(e);
        },
    };
    let global = match g_opt_bool(ps, "global") {
        Ok(x) => x,
        Err(e) => {
            proof {
                assert forall|m: int| 0 <= m < 5 implies canon_field(
                    psv,
                    (#[trigger] fs[m]).0,
                    fs[m].1,
                ) is Ok by {}
                lemma_canon_fields_first_err(psv, fs, 0, 5, e.model());
            }
            return Err(e);
        },
    };
    let scope = match g_opt_i64(ps, "scope") {
        Ok(x) => x,
        Err(e) => {
            proof {
                assert forall|m: int| 0 <= m < 6 implies canon_field(
                    psv,
                    (#[trigger] fs[m]).0,
                    fs[m].1,
                ) is Ok by {}
                lemma_canon_fields_first_err(psv, fs, 0, 6, e.model());
            }
            return Err(e);
        },
    };
    let result = UsingForDirective { id, library_name, typename, operations, src, global, scope };
    let ghost outs: Seq<(Seq<char>, Option<JsonV>)> = seq![
        ("id"@, Some(JsonV::Int(result.id as int))),
        ("libraryName"@, Some(opt_identifier_path_of(result.library_name))),
        ("typeName"@, Some(opt_user_defined_type_name_of(result.typename))),
        ("operations"@, Some(opt_strs_of(result.operations))),
        ("src"@, Some(JsonV::Str(spec_encode_location(result.src)))),
        ("global"@, Some(opt_bool_of(result.global))),
        ("scope"@, Some(opt_int_of(result.scope))),
    ];
    proof {
        assert forall|j: int| 0 <= j < fs.len() implies (#[trigger] outs[j]).0 == fs[j].0
            && canon_field(psv, fs[j].0, fs[j].1) == Ok::<Option<JsonV>, ErrV>(outs[j].1) by {}
        lemma_canon_fields_ok(psv, fs, outs, 0);
        assert(cat_opts(outs, 0) =~= enc_using_for_directive(result)) by {
            reveal_with_fuel(cat_opts, 9);
        }
    }
    Ok(result)
}

/// Decodes a importDirective record from the members of an object.
pub fn decode_import_directive(ps: &Vec<(String, JsonValue)>) -> (r: Result<ImportDirective, DecodeError>)
    ensures
        match r {
            Ok(x) => canon_fields(jv_pairs(ps@), schema(RecId::RImportDirective), 0) == Ok::<
                Seq<(Seq<char>, JsonV)>,
                ErrV,
            >(enc_import_directive(x)),
            Err(e) => canon_fields(jv_pairs(ps@), schema(RecId::RImportDirective), 0) == Err::<
                Seq<(Seq<char>, JsonV)>,
                ErrV,
            >(e.model()),
        },
{
    let ghost psv = jv_pairs(ps@);
    let ghost fs = schema(RecId::RImportDirective);
    let id = match g_i64(ps, "id") {
        Ok(x) => x,
        Err(e) => {
            proof {
                lemma_canon_fields_first_err(psv, fs, 0, 0, e.model());
            }
            return Err(e);
        },
    };
    let absolute_path = match g_str(ps, "absolutePath") {
        Ok(x) => x,
        Err(e) => {
            proof {
                assert forall|m: int| 0 <= m < 1 implies canon_field(
                    psv,
                    (#[trigger] fs[m]).0,
                    fs[m].1,
                ) is Ok by {}
                lemma_canon_fields_first_err(psv, fs, 0, 1, e.model());
            }
            return Err(e);
        },
    };
    let file = match g_str(ps, "file") {
        Ok(x) => x,
        Err(e) => {
            proof {
                assert forall|m: int| 0 <= m < 2 implies canon_field(
                    psv,
                    (#[trigger] fs[m]).0,
                    fs[m].1,
                ) is Ok by {}
                lemma_canon_fields_first_err(psv, fs, 0, 2, e.model());
            }
            return Err(e);
        },
    };
    let unit_alias = match g_opt_str(ps, "unitAlias") {
        Ok(x) => x,
        Err(e) => {
            proof {
                assert forall|m: int| 0 <= m < 3 implies canon_field(
                    psv,
                    (#[trigger] fs[m]).0,
                    fs[m].1,
                ) is Ok by {}
                lemma_canon_fields_first_err(psv, fs, 0, 3, e.model());
            }
            return Err(e);
        },
    };
    let symbol_aliases = match crate::ast::dec_leaf::g_dac_symbol_alias(ps, "symbolAliases") {
        Ok(x) => x,
        Err(e) => {
            proof {
                assert forall|m: int| 0 <= m < 4 implies canon_field(
                    psv,
                    (#[trigger] fs[m]).0,
                    fs[m].1,
                ) is Ok by {}
                lemma_canon_fields_first_err(psv, fs, 0, 4, e.model());
            }
            return Err(e);
        },
    };
    let scope = match g_opt_i64(ps, "scope") {
        Ok(x) => x,
        Err(e) => {
            proof {
                assert forall|m: int| 0 <= m < 5 implies canon_field(
                    psv,
                    (#[trigger] fs[m]).0,
                    fs[m].1,
                ) is Ok by {}
                lemma_canon_fields_first_err(psv, fs, 0, 5, e.model());
            }
            return Err(e);
        },
    };
    let source_unit = match g_opt_i64(ps, "sourceUnit") {
        Ok(x) => x,
        Err(e) => {
            proof {
                assert forall|m: int| 0 <= m < 6 implies canon_field(
                    psv,
                    (#[trigger] fs[m]).0,
                    fs[m].1,
                ) is Ok by {}
                lemma_canon_fields_first_err(psv, fs, 0, 6, e.model());
            }
            return Err(e);
        },
    };
    let src = match g_src(ps, "src") {
        Ok(x) => x,
        Err(e) => {
            proof {
                assert forall|m: int| 0 <= m < 7 implies canon_field(
                    psv,
                    (#[trigger] fs[m]).0,
                    fs[m].1,
                ) is Ok by {}
                lemma_canon_fields_first_err(psv, fs, 0, 7, e.model());
            }
            return Err(e);
        },
    };
    let name_location = match g_opt_str(ps, "nameLocation") {
        Ok(x) => x,
        Err(e) => {
            proof {
                assert forall|m: int| 0 <= m < 8 implies canon_field(
                    psv,
                    (#[trigger] fs[m]).0,
                    fs[m].1,
                ) is Ok by {}
                lemma_canon_fields_first_err(psv, fs, 0, 8, e.model());
            }
            return Err(e);
        },
    };
    let result = ImportDirective { id, absolute_path, file, unit_alias, symbol_aliases, scope, source_unit, src, name_location };
    let ghost outs: Seq<(Seq<char>, Option<JsonV>)> = seq![
        ("id"@, Some(JsonV::Int(result.id as int))),
        ("absolutePath"@, Some(JsonV::Str(result.absolute_path@))),
        ("file"@, Some(JsonV::Str(result.file@))),
        ("unitAlias"@, Some(opt_str_of(result.unit_alias))),
        ("symbolAliases"@, Some(JsonV::Arr(seq_symbol_alias_of(result.symbol_aliases@)))),
        ("scope"@, Some(opt_int_of(result.scope))),
        ("sourceUnit"@, Some(opt_int_of(result.source_unit))),
        ("src"@, Some(JsonV::Str(spec_encode_location(result.src)))),
        ("nameLocation"@, Some(opt_str_of(result.name_location))),
    ];
    proof {
        assert forall|j: int| 0 <= j < fs.len() implies (#[trigger] outs[j]).0 == fs[j].0
            && canon_field(psv, fs[j].0, fs[j].1) == Ok::<Option<JsonV>, ErrV>(outs[j].1) by {}
        lemma_canon_fields_ok(psv, fs, outs, 0);
        assert(cat_opts(outs, 0) =~= enc_import_directive(result)) by {
            reveal_with_fuel(cat_opts, 11);
        }
    }
    Ok(result)
}

/// Decodes a pragmaDirective record from the members of an object.
pub fn decode_pragma_directive(ps: &Vec<(String, JsonValue)>) -> (r: Result<PragmaDirective, DecodeError>)
    ensures
        match r {
            Ok(x) => canon_fields(jv_pairs(ps@), schema(RecId::RPragmaDirective), 0) == Ok::<
                Seq<(Seq<char>, JsonV)>,
                ErrV,
            >(enc_pragma_directive(x)),
            Err(e) => canon_fields(jv_pairs(ps@), schema(RecId::RPragmaDirective), 0) == Err::<
                Seq<(Seq<char>, JsonV)>,
                ErrV,
            >(e.model()),
        },
{
    let ghost psv = jv_pairs(ps@);
    let ghost fs = schema(RecId::RPragmaDirective);
    let id = match g_i64(ps, "id") {
        Ok(x) => x,
        Err(e) => {
            proof {
                lemma_canon_fields_first_err(psv, fs, 0, 0, e.model());
            }
            return Err(e);
        },
    };
    let literals = match crate::ast::dec_leaf::g_arr_str(ps, "literals") {
        Ok(x) => x,
        Err(e) => {
            proof {
                assert forall|m: int| 0 <= m < 1 implies canon_field(
                    psv,
                    (#[trigger] fs[m]).0,
                    fs[m].1,
                ) is Ok by {}
                lemma_canon_fields_first_err(psv, fs, 0, 1, e.model());
            }
            return Err(e);
        },
    };
    let src = match g_src(ps, "src") {
        Ok(x) => x,
        Err(e) => {
            proof {
                assert forall|m: int| 0 <= m < 2 implies canon_field(
                    psv,
                    (#[trigger] fs[m]).0,
                    fs[m].1,
                ) is Ok by {}
                lemma_canon_fields_first_err(psv, fs, 0, 2, e.model());
            }
            return Err(e);
        },
    };
    let result = PragmaDirective { id, literals, src };
    let ghost outs: Seq<(Seq<char>, Option<JsonV>)> = seq![
        ("id"@, Some(JsonV::Int(result.id as int))),
        ("literals"@, Some(JsonV::Arr(strs_of(result.literals@)))),
        ("src"@, Some(JsonV::Str(spec_encode_location(result.src)))),
    ];
    proof {
        assert forall|j: int| 0 <= j < fs.len() implies (#[trigger] outs[j]).0 == fs[j].0
            && canon_field(psv, fs[j].0, fs[j].1) == Ok::<Option<JsonV>, ErrV>(outs[j].1) by {}
        lemma_canon_fields_ok(psv, fs, outs, 0);
        assert(cat_opts(outs, 0) =~= enc_pragma_directive(result)) by {
            reveal_with_fuel(cat_opts, 5);
        }
    }
    Ok(result)
}

/// Decodes a contractDefinition record from the members of an object.
#[verifier::rlimit(100)]
#[verifier::spinoff_prover]
pub fn decode_contract_definition(ps: &Vec<(String, JsonValue)>) -> (r: Result<ContractDefinition, DecodeError>)
    ensures
        match r {
            Ok(x) => canon_fields(jv_pairs(ps@), schema(RecId::RContractDefinition), 0) == Ok::<
                Seq<(Seq<char>, JsonV)>,
                ErrV,
            >(enc_contract_definition(x)),
            Err(e) => canon_fields(jv_pairs(ps@), schema(RecId::RContractDefinition), 0) == Err::<
                Seq<(Seq<char>, JsonV)>,
                ErrV,
            >(e.model()),
        },
    decreases jv_pairs(ps@), 5int, 0int,
{
    let ghost psv = jv_pairs(ps@);
    let ghost fs = schema(RecId::RContractDefinition);
    let id = match g_i64(ps, "id") {
        Ok(x) => x,
        Err(e) => {
            proof {
                lemma_canon_fields_first_err(psv, fs, 0, 0, e.model());
            }
            return Err(e);
        },
    };
    let name = match g_str(ps, "name") {
        Ok(x) => x,
        Err(e) => {
            proof {
                assert forall|m: int| 0 <= m < 1 implies canon_field(
                    psv,
                    (#[trigger] fs[m]).0,
                    fs[m].1,
                ) is Ok by {}
                lemma_canon_fields_first_err(psv, fs, 0, 1, e.model());
            }
            return Err(e);
        },
    };
    let contract_kind = match crate::ast::dec_leaf::g_enum_ck(ps, "contractKind") {
        Ok(x) => x,
        Err(e) => {
            proof {
                assert forall|m: int| 0 <= m < 2 implies canon_field(
                    psv,
                    (#[trigger] fs[m]).0,
                    fs[m].1,
                ) is Ok by {}
                lemma_canon_fields_first_err(psv, fs, 0, 2, e.model());
            }
            return Err(e);
        },
    };
    let is_abstract = match g_bool_or_int(ps, "abstract") {
        Ok(x) => x,
        Err(e) => {
            proof {
                assert forall|m: int| 0 <= m < 3 implies canon_field(
                    psv,
                    (#[trigger] fs[m]).0,
                    fs[m].1,
                ) is Ok by {}
                lemma_canon_fields_first_err(psv, fs, 0, 3, e.model());
            }
            return Err(e);
        },
    };
    let fully_implemented = match g_bool_or_int(ps, "fullyImplemented") {
        Ok(x) => x,
        Err(e) => {
            proof {
                assert forall|m: int| 0 <= m < 4 implies canon_field(
                    psv,
                    (#[trigger] fs[m]).0,
                    fs[m].1,
                ) is Ok by {}
                lemma_canon_fields_first_err(psv, fs, 0, 4, e.model());
            }
            return Err(e);
        },
    };
    let linearized_base_contracts = match g_arr_i64(ps, "linearizedBaseContracts") {
        Ok(x) => x,
        Err(e) => {
            proof {
                assert forall|m: int| 0 <= m < 5 implies canon_field(
                    psv,
                    (#[trigger] fs[m]).0,
                    fs[m].1,
                ) is Ok by {}
                lemma_canon_fields_first_err(psv, fs, 0, 5, e.model());
            }
            return Err(e);
        },
    };
    let nodes = match g_dac_contract_node(ps, "nodes") {
        Ok(x) => x,
        Err(e) => {
            proof {
                assert forall|m: int| 0 <= m < 6 implies canon_field(
                    psv,
                    (#[trigger] fs[m]).0,
                    fs[m].1,
                ) is Ok by {}
                lemma_canon_fields_first_err(psv, fs, 0, 6, e.model());
            }
            return Err(e);
        },
    };
    let scope = match g_opt_i64(ps, "scope") {
        Ok(x) => x,
        Err(e) => {
            proof {
                assert forall|m: int| 0 <= m < 7 implies canon_field(
                    psv,
                    (#[trigger] fs[m]).0,
                    fs[m].1,
                ) is Ok by {}
                lemma_canon_fields_first_err(psv, fs, 0, 7, e.model());
            }
            return Err(e);
        },
    };
    let src = match g_src(ps, "src") {
        Ok(x) => x,
        Err(e) => {
            proof {
                assert forall|m: int| 0 <= m < 8 implies canon_field(
                    psv,
                    (#[trigger] fs[m]).0,
                    fs[m].1,
                ) is Ok by {}
                lemma_canon_fields_first_err(psv, fs, 0, 8, e.model());
            }
            return Err(e);
        },
    };
    let documentation = match crate::ast::dec_leaf::g_oc_doc(ps, "documentation") {
        Ok(x) => x,
        Err(e) => {
            proof {
                assert forall|m: int| 0 <= m < 9 implies canon_field(
                    psv,
                    (#[trigger] fs[m]).0,
                    fs[m].1,
                ) is Ok by {}
                lemma_canon_fields_first_err(psv, fs, 0, 9, e.model());
            }
            return Err(e);
        },
    };
    let base_contracts = match g_oac_inheritance_specifier(ps, "baseContracts") {
        Ok(x) => x,
        Err(e) => {
            proof {
                assert forall|m: int| 0 <= m < 10 implies canon_field(
                    psv,
                    (#[trigger] fs[m]).0,
                    fs[m].1,
                ) is Ok by {}
                lemma_canon_fields_first_err(psv, fs, 0, 10, e.model());
            }
            return Err(e);
        },
    };
    let canonical_name = match g_opt_str(ps, "canonicalName") {
        Ok(x) => x,
        Err(e) => {
            proof {
                assert forall|m: int| 0 <= m < 11 implies canon_field(
                    psv,
                    (#[trigger] fs[m]).0,
                    fs[m].1,
                ) is Ok by {}
                lemma_canon_fields_first_err(psv, fs, 0, 11, e.model());
            }
            return Err(e);
        },
    };
    let contract_dependencies = match g_opt_arr_i64(ps, "contractDependencies") {
        Ok(x) => x,
        Err(e) => {
            proof {
                assert forall|m: int| 0 <= m < 12 implies canon_field(
                    psv,
                    (#[trigger] fs[m]).0,
                    fs[m].1,
                ) is Ok by {}
                lemma_canon_fields_first_err(psv, fs, 0, 12, e.model());
            }
            return Err(e);
        },
    };
    let name_location = match g_opt_str(ps, "nameLocation") {
        Ok(x) => x,
        Err(e) => {
            proof {
                assert forall|m: int| 0 <= m < 13 implies canon_field(
                    psv,
                    (#[trigger] fs[m]).0,
                    fs[m].1,
                ) is Ok by {}
                lemma_canon_fields_first_err(psv, fs, 0, 13, e.model());
            }
            return Err(e);
        },
    };
    let used_errors = match g_opt_arr_i64(ps, "usedErrors") {
        Ok(x) => x,
        Err(e) => {
            proof {
                assert forall|m: int| 0 <= m < 14 implies canon_field(
                    psv,
                    (#[trigger] fs[m]).0,
                    fs[m].1,
                ) is Ok by {}
                lemma_canon_fields_first_err(psv, fs, 0, 14, e.model());
            }
            return Err(e);
        },
    };
    let used_events = match g_opt_arr_i64(ps, "usedEvents") {
        Ok(x) => x,
        Err(e) => {
            proof {
                assert forall|m: int| 0 <= m < 15 implies canon_field(
                    psv,
                    (#[trigger] fs[m]).0,
                    fs[m].1,
                ) is Ok by {}
                lemma_canon_fields_first_err(psv, fs, 0, 15, e.model());
            }
            return Err(e);
        },
    };
    let result = ContractDefinition { id, name, contract_kind, is_abstract, fully_implemented, linearized_base_contracts, nodes, scope, src, documentation, base_contracts, canonical_name, contract_dependencies, name_location, used_errors, used_events };
    let ghost outs: Seq<(Seq<char>, Option<JsonV>)> = seq![
        ("id"@, Some(JsonV::Int(result.id as int))),
        ("name"@, Some(JsonV::Str(result.name@))),
        ("contractKind"@, Some(JsonV::Str(spell_ck(result.contract_kind)))),
        ("abstract"@, Some(JsonV::Bool(result.is_abstract))),
        ("fullyImplemented"@, Some(JsonV::Bool(result.fully_implemented))),
        ("linearizedBaseContracts"@, Some(JsonV::Arr(ints_of(result.linearized_base_contracts@)))),
        ("nodes"@, Some(JsonV::Arr(seq_contract_node_of(result.nodes@)))),
        ("scope"@, Some(opt_int_of(result.scope))),
        ("src"@, Some(JsonV::Str(spec_encode_location(result.src)))),
        ("documentation"@, Some(opt_doc_of(result.documentation))),
        ("baseContracts"@, Some(opt_arr_inheritance_specifier_of(result.base_contracts))),
        ("canonicalName"@, Some(opt_str_of(result.canonical_name))),
        ("contractDependencies"@, Some(opt_arr_ints_of(result.contract_dependencies))),
        ("nameLocation"@, Some(opt_str_of(result.name_location))),
        ("usedErrors"@, Some(opt_arr_ints_of(result.used_errors))),
        ("usedEvents"@, Some(opt_arr_ints_of(result.used_events))),
    ];
    proof {
        assert forall|j: int| 0 <= j < fs.len() implies (#[trigger] outs[j]).0 == fs[j].0
            && canon_field(psv, fs[j].0, fs[j].1) == Ok::<Option<JsonV>, ErrV>(outs[j].1) by {}
        lemma_canon_fields_ok(psv, fs, outs, 0);
        assert(cat_opts(outs, 0) =~= enc_contract_definition(result)) by {
            reveal_with_fuel(cat_opts, 18);
        }
    }
    Ok(result)
}

/// Decodes a sourceUnit record from the members of an object.
pub fn decode_source_unit(ps: &Vec<(String, JsonValue)>) -> (r: Result<SourceUnit, DecodeError>)
    ensures
        match r {
            Ok(x) => canon_fields(jv_pairs(ps@), schema(RecId::RSourceUnit), 0) == Ok::<
                Seq<(Seq<char>, JsonV)>,
                ErrV,
            >(enc_source_unit(x)),
            Err(e) => canon_fields(jv_pairs(ps@), schema(RecId::RSourceUnit), 0) == Err::<
                Seq<(Seq<char>, JsonV)>,
                ErrV,
            >(e.model()),
        },
    decreases jv_pairs(ps@), 5int, 0int,
{
    let ghost psv = jv_pairs(ps@);
    let ghost fs = schema(RecId::RSourceUnit);
    let id = match g_i64(ps, "id") {
        Ok(x) => x,
        Err(e) => {
            proof {
                lemma_canon_fields_first_err(psv, fs, 0, 0, e.model());
            }
            return Err(e);
        },
    };
    let absolute_path = match g_str(ps, "absolutePath") {
        Ok(x) => x,
        Err(e) => {
            proof {
                assert forall|m: int| 0 <= m < 1 implies canon_field(
                    psv,
                    (#[trigger] fs[m]).0,
                    fs[m].1,
                ) is Ok by {}
                lemma_canon_fields_first_err(psv, fs, 0, 1, e.model());
            }
            return Err(e);
        },
    };
    let exported_symbols = match crate::ast::dec_leaf::g_map_arr_i64(ps, "exportedSymbols") {
        Ok(x) => x,
        Err(e) => {
            proof {
                assert forall|m: int| 0 <= m < 2 implies canon_field(
                    psv,
                    (#[trigger] fs[m]).0,
                    fs[m].1,
                ) is Ok by {}
                lemma_canon_fields_first_err(psv, fs, 0, 2, e.model());
            }
            return Err(e);
        },
    };
    let src = match g_src(ps, "src") {
        Ok(x) => x,
        Err(e) => {
            proof {
                assert forall|m: int| 0 <= m < 3 implies canon_field(
                    psv,
                    (#[trigger] fs[m]).0,
                    fs[m].1,
                ) is Ok by {}
                lemma_canon_fields_first_err(psv, fs, 0, 3, e.model());
            }
            return Err(e);
        },
    };
    let nodes = match g_ac_source_unit_node(ps, "nodes") {
        Ok(x) => x,
        Err(e) => {
            proof {
                assert forall|m: int| 0 <= m < 4 implies canon_field(
                    psv,
                    (#[trigger] fs[m]).0,
                    fs[m].1,
                ) is Ok by {}
                lemma_canon_fields_first_err(psv, fs, 0, 4, e.model());
            }
            return Err(e);
        },
    };
    let license = match g_opt_str(ps, "license") {
        Ok(x) => x,
        Err(e) => {
            proof {
                assert forall|m: int| 0 <= m < 5 implies canon_field(
                    psv,
                    (#[trigger] fs[m]).0,
                    fs[m].1,
                ) is Ok by {}
                lemma_canon_fields_first_err(psv, fs, 0, 5, e.model());
            }
            return Err(e);
        },
    };
    let result = SourceUnit { id, absolute_path, exported_symbols, src, nodes, license };
    let ghost outs: Seq<(Seq<char>, Option<JsonV>)> = seq![
        ("id"@, Some(JsonV::Int(result.id as int))),
        ("absolutePath"@, Some(JsonV::Str(result.absolute_path@))),
        ("exportedSymbols"@, Some(JsonV::Obj(map_ints_of(result.exported_symbols@)))),
        ("src"@, Some(JsonV::Str(spec_encode_location(result.src)))),
        ("nodes"@, Some(JsonV::Arr(seq_source_unit_node_of(result.nodes@)))),
        ("license"@, Some(opt_str_of(result.license))),
    ];
    proof {
        assert forall|j: int| 0 <= j < fs.len() implies (#[trigger] outs[j]).0 == fs[j].0
            && canon_field(psv, fs[j].0, fs[j].1) == Ok::<Option<JsonV>, ErrV>(outs[j].1) by {}
        lemma_canon_fields_ok(psv, fs, outs, 0);
        assert(cat_opts(outs, 0) =~= enc_source_unit(result)) by {
            reveal_with_fuel(cat_opts, 8);
        }
    }
    Ok(result)
}

/// Decodes a sourceUnitNode node: the discriminator selects the record; an
/// unrecognized discriminator is reported as such, distinct from a
/// malformed known kind.
pub fn decode_source_unit_node(v: &JsonValue) -> (r: Result<SourceUnitNode, DecodeError>)
    ensures
        match r {
            Ok(x) => canon_node(jv(*v), Fam::SourceUnit) == Ok::<JsonV, ErrV>(enc_source_unit_node(x)),
            Err(e) => canon_node(jv(*v), Fam::SourceUnit) == Err::<JsonV, ErrV>(e.model()),
        },
    decreases jv(*v), 5int, 1int,
{
    let ps = match v {
        JsonValue::Obj(ps) => ps,
        _ => {
            return Err(DecodeError::NotAnObject);
        },
    };
    proof {
        assert(jv(*v) == JsonV::Obj(jv_pairs(ps@)));
    }
    let tag = match obj_get(ps, "nodeType") {
        None => {
            return Err(DecodeError::Missing("nodeType".to_owned()));
        },
        Some(tv) => match tv {
            JsonValue::Str(s) => s,
            _ => {
                return Err(DecodeError::Invalid("nodeType".to_owned()));
            },
        },
    };
    if str_eq(tag.as_str(), "ContractDefinition") {
        match decode_contract_definition(ps) {
            Ok(x) => {
                proof {
                    assert(canon_node(jv(*v), Fam::SourceUnit) matches Ok(c) && c =~~= enc_source_unit_node(
                        SourceUnitNode::ContractDefinition(Box::new(x)),
                    ));
                }
                Ok(SourceUnitNode::ContractDefinition(Box::new(x)))
            },
            Err(e) => Err(e),
        }
    } else if str_eq(tag.as_str(), "EnumDefinition") {
        match decode_enum_definition(ps) {
            Ok(x) => {
                proof {
                    assert(canon_node(jv(*v), Fam::SourceUnit) matches Ok(c) && c =~~= enc_source_unit_node(
                        SourceUnitNode::EnumDefinition(Box::new(x)),
                    ));
                }
                Ok(SourceUnitNode::EnumDefinition(Box::new(x)))
            },
            Err(e) => Err(e),
        }
    } else if str_eq(tag.as_str(), "ErrorDefinition") {
        match decode_error_definition(ps) {
            Ok(x) => {
                proof {
                    assert(canon_node(jv(*v), Fam::SourceUnit) matches Ok(c) && c =~~= enc_source_unit_node(
                        SourceUnitNode::ErrorDefinition(Box::new(x)),
                    ));
                }
                Ok(SourceUnitNode::ErrorDefinition(Box::new(x)))
            },
            Err(e) => Err(e),
        }
    } else if str_eq(tag.as_str(), "EventDefinition") {
        match decode_event_definition(ps) {
            Ok(x) => {
                proof {
                    assert(canon_node(jv(*v), Fam::SourceUnit) matches Ok(c) && c =~~= enc_source_unit_node(
                        SourceUnitNode::EventDefinition(Box::new(x)),
                    ));
                }
                Ok(SourceUnitNode::EventDefinition(Box::new(x)))
            },
            Err(e) => Err(e),
        }
    } else if str_eq(tag.as_str(), "FunctionDefinition") {
        match decode_function_definition(ps) {
            Ok(x) => {
                proof {
                    assert(canon_node(jv(*v), Fam::SourceUnit) matches Ok(c) && c =~~= enc_source_unit_node(
                        SourceUnitNode::FunctionDefinition(Box::new(x)),
                    ));
                }
                Ok(SourceUnitNode::FunctionDefinition(Box::new(x)))
            },
            Err(e) => Err(e),
        }
    } else if str_eq(tag.as_str(), "ImportDirective") {
        match decode_import_directive(ps) {
            Ok(x) => {
                proof {
                    assert(canon_node(jv(*v), Fam::SourceUnit) matches Ok(c) && c =~~= enc_source_unit_node(
                        SourceUnitNode::ImportDirective(Box::new(x)),
                    ));
                }
                Ok(SourceUnitNode::ImportDirective(Box::new(x)))
            },
            Err(e) => Err(e),
        }
    } else if str_eq(tag.as_str(), "PragmaDirective") {
        match decode_pragma_directive(ps) {
            Ok(x) => {
                proof {
                    assert(canon_node(jv(*v), Fam::SourceUnit) matches Ok(c) && c =~~= enc_source_unit_node(
                        SourceUnitNode::PragmaDirective(Box::new(x)),
                    ));
                }
                Ok(SourceUnitNode::PragmaDirective(Box::new(x)))
            },
            Err(e) => Err(e),
        }
    } else if str_eq(tag.as_str(), "StructDefinition") {
        match decode_struct_definition(ps) {
            Ok(x) => {
                proof {
                    assert(canon_node(jv(*v), Fam::SourceUnit) matches Ok(c) && c =~~= enc_source_unit_node(
                        SourceUnitNode::StructDefinition(Box::new(x)),
                    ));
                }
                Ok(SourceUnitNode::StructDefinition(Box::new(x)))
            },
            Err(e) => Err(e),
        }
    } else if str_eq(tag.as_str(), "UserDefinedValueTypeDefinition") {
        match decode_user_defined_value_type_definition(ps) {
            Ok(x) => {
                proof {
                    assert(canon_node(jv(*v), Fam::SourceUnit) matches Ok(c) && c =~~= enc_source_unit_node(
                        SourceUnitNode::UserDefinedValueTypeDefinition(Box::new(x)),
                    ));
                }
                Ok(SourceUnitNode::UserDefinedValueTypeDefinition(Box::new(x)))
            },
            Err(e) => Err(e),
        }
    } else if str_eq(tag.as_str(), "UsingForDirective") {
        match decode_using_for_directive(ps) {
            Ok(x) => {
                proof {
                    assert(canon_node(jv(*v), Fam::SourceUnit) matches Ok(c) && c =~~= enc_source_unit_node(
                        SourceUnitNode::UsingForDirective(Box::new(x)),
                    ));
                }
                Ok(SourceUnitNode::UsingForDirective(Box::new(x)))
            },
            Err(e) => Err(e),
        }
    } else if str_eq(tag.as_str(), "VariableDeclaration") {
        match decode_variable_declaration(ps) {
            Ok(x) => {
                proof {
                    assert(canon_node(jv(*v), Fam::SourceUnit) matches Ok(c) && c =~~= enc_source_unit_node(
                        SourceUnitNode::VariableDeclaration(Box::new(x)),
                    ));
                }
                Ok(SourceUnitNode::VariableDeclaration(Box::new(x)))
            },
            Err(e) => Err(e),
        }
    } else {
        Err(DecodeError::UnknownDiscriminator(tag.clone()))
    }
}

/// Decodes a contractDefinitionNode node: the discriminator selects the record; an
/// unrecognized discriminator is reported as such, distinct from a
/// malformed known kind.
pub fn decode_contract_node(v: &JsonValue) -> (r: Result<ContractDefinitionNode, DecodeError>)
    ensures
        match r {
            Ok(x) => canon_node(jv(*v), Fam::Contract) == Ok::<JsonV, ErrV>(enc_contract_node(x)),
            Err(e) => canon_node(jv(*v), Fam::Contract) == Err::<JsonV, ErrV>(e.model()),
        },
    decreases jv(*v), 5int, 1int,
{
    let ps = match v {
        JsonValue::Obj(ps) => ps,
        _ => {
            return Err(DecodeError::NotAnObject);
        },
    };
    proof {
        assert(jv(*v) == JsonV::Obj(jv_pairs(ps@)));
    }
    let tag = match obj_get(ps, "nodeType") {
        None => {
            return Err(DecodeError::Missing("nodeType".to_owned()));
        },
        Some(tv) => match tv {
            JsonValue::Str(s) => s,
            _ => {
                return Err(DecodeError::Invalid("nodeType".to_owned()));
            },
        },
    };
    if str_eq(tag.as_str(), "EnumDefinition") {
        match decode_enum_definition(ps) {
            Ok(x) => {
                proof {
                    assert(canon_node(jv(*v), Fam::Contract) matches Ok(c) && c =~~= enc_contract_node(
                        ContractDefinitionNode::EnumDefinition(Box::new(x)),
                    ));
                }
                Ok(ContractDefinitionNode::EnumDefinition(Box::new(x)))
            },
            Err(e) => Err(e),
        }
    } else if str_eq(tag.as_str(), "ErrorDefinition") {
        match decode_error_definition(ps) {
            Ok(x) => {
                proof {
                    assert(canon_node(jv(*v), Fam::Contract) matches Ok(c) && c =~~= enc_contract_node(
                        ContractDefinitionNode::ErrorDefinition(Box::new(x)),
                    ));
                }
                Ok(ContractDefinitionNode::ErrorDefinition(Box::new(x)))
            },
            Err(e) => Err(e),
        }
    } else if str_eq(tag.as_str(), "EventDefinition") {
        match decode_event_definition(ps) {
            Ok(x) => {
                proof {
                    assert(canon_node(jv(*v), Fam::Contract) matches Ok(c) && c =~~= enc_contract_node(
                        ContractDefinitionNode::EventDefinition(Box::new(x)),
                    ));
                }
                Ok(ContractDefinitionNode::EventDefinition(Box::new(x)))
            },
            Err(e) => Err(e),
        }
    } else if str_eq(tag.as_str(), "FunctionDefinition") {
        match decode_function_definition(ps) {
            Ok(x) => {
                proof {
                    assert(canon_node(jv(*v), Fam::Contract) matches Ok(c) && c =~~= enc_contract_node(
                        ContractDefinitionNode::FunctionDefinition(Box::new(x)),
                    ));
                }
                Ok(ContractDefinitionNode::FunctionDefinition(Box::new(x)))
            },
            Err(e) => Err(e),
        }
    } else if str_eq(tag.as_str(), "ModifierDefinition") {
        match decode_modifier_definition(ps) {
            Ok(x) => {
                proof {
                    assert(canon_node(jv(*v), Fam::Contract) matches Ok(c) && c =~~= enc_contract_node(
                        ContractDefinitionNode::ModifierDefinition(Box::new(x)),
                    ));
                }
                Ok(ContractDefinitionNode::ModifierDefinition(Box::new(x)))
            },
            Err(e) => Err(e),
        }
    } else if str_eq(tag.as_str(), "StructDefinition") {
        match decode_struct_definition(ps) {
            Ok(x) => {
                proof {
                    assert(canon_node(jv(*v), Fam::Contract) matches Ok(c) && c =~~= enc_contract_node(
                        ContractDefinitionNode::StructDefinition(Box::new(x)),
                    ));
                }
                Ok(ContractDefinitionNode::StructDefinition(Box::new(x)))
            },
            Err(e) => Err(e),
        }
    } else if str_eq(tag.as_str(), "UsingForDirective") {
        match decode_using_for_directive(ps) {
            Ok(x) => {
                proof {
                    assert(canon_node(jv(*v), Fam::Contract) matches Ok(c) && c =~~= enc_contract_node(
                        ContractDefinitionNode::UsingForDirective(Box::new(x)),
                    ));
                }
                Ok(ContractDefinitionNode::UsingForDirective(Box::new(x)))
            },
            Err(e) => Err(e),
        }
    } else if str_eq(tag.as_str(), "VariableDeclaration") {
        match decode_variable_declaration(ps) {
            Ok(x) => {
                proof {
                    assert(canon_node(jv(*v), Fam::Contract) matches Ok(c) && c =~~= enc_contract_node(
                        ContractDefinitionNode::VariableDeclaration(Box::new(x)),
                    ));
                }
                Ok(ContractDefinitionNode::VariableDeclaration(Box::new(x)))
            },
            Err(e) => Err(e),
        }
    } else {
        Err(DecodeError::UnknownDiscriminator(tag.clone()))
    }
}


/// Decodes one whole document: the value must be an object satisfying the
/// source unit's schema; the top-level node sequence keeps its order.
pub fn decode_document(v: &JsonValue) -> (r: Result<SourceUnit, DecodeError>)
    ensures
        match r {
            Ok(x) => canon_rec(jv(*v), RecId::RSourceUnit) == Ok::<JsonV, ErrV>(
                JsonV::Obj(enc_source_unit(x)),
            ),
            Err(e) => canon_rec(jv(*v), RecId::RSourceUnit) == Err::<JsonV, ErrV>(e.model()),
        },
{
    match v {
        JsonValue::Obj(ps) => {
            proof {
                assert(jv(*v) == JsonV::Obj(jv_pairs(ps@)));
            }
            decode_source_unit(ps)
        },
        _ => Err(DecodeError::NotAnObject),
    }
}

} // verus!
