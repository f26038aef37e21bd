//! Decoders for the type name records and their family dispatch.

use vstd::prelude::*;

use crate::ast::canon::{
    Child, DecodeError, EnumId, ErrV, Fam, FieldKind, RecId, canon_doc, canon_elems,
    canon_field, canon_fields, canon_members, canon_node, canon_rec, canon_value, cat_opts,
    enum_ok, fam_rec, idx_path, lemma_canon_fields_err_shape, lemma_canon_fields_first_err,
    lemma_canon_fields_ok, lemma_canon_value_arr_unfold, lemma_canon_value_child_unfold,
    lemma_canon_value_map_unfold, lemma_canon_value_opt_arr_unfold,
    lemma_canon_value_opt_child_unfold, prefix_err, prefix_field, prefix_index, rec_tag,
    schema,
};
use crate::ast::fields::{
    field_matches, g_arr_i64, g_bool, g_bool_or_int, g_bool_prefix_alias, g_def_arr_i64,
    g_elem, g_i64, g_opt_arr_i64, g_opt_bool, g_opt_i64, g_opt_str, g_opt_str_omit, g_src,
    g_str, ints_of, lemma_canon_elems_err, lemma_canon_elems_ok, map_ints_of, omit_str_of,
    opt_arr_ints_of, opt_bool_of, opt_int_of, opt_ints_of, opt_str_of, opt_strs_of, strs_of,
};
use crate::ast::shape::{
    enc_array_type_name, enc_assignment, enc_binary_operation, enc_block, enc_break_statement,
    enc_common_type, enc_conditional, enc_continue_statement, enc_contract_definition,
    enc_contract_node, enc_do_while_statement, enc_doc, enc_documentation_custom,
    enc_documentation_parameter, enc_documentation_return, enc_elementary_type_name,
    enc_elementary_type_name_expression, enc_emit_statement, enc_enum_definition,
    enc_enum_value, enc_error_definition, enc_event_definition, enc_expr,
    enc_expression_statement, enc_external_reference, enc_for_statement, enc_function_call,
    enc_function_call_expression, enc_function_call_options, enc_function_definition,
    enc_function_type_name, enc_identifier, enc_identifier_path, enc_if_statement,
    enc_import_directive, enc_index_access, enc_inheritance_specifier, enc_inline_assembly,
    enc_literal, enc_mapping, enc_member_access, enc_modifier_definition,
    enc_modifier_invocation, enc_new_expression, enc_override_specifier, enc_parameter_list,
    enc_placeholder_statement, enc_pragma_directive, enc_return_statement,
    enc_revert_statement, enc_source_unit, enc_source_unit_node, enc_stmt,
    enc_struct_definition, enc_structured_documentation, enc_symbol_alias,
    enc_try_catch_clause, enc_try_statement, enc_tuple_expression, enc_type_descriptions,
    enc_type_name, enc_unary_operation, enc_unchecked_block, enc_user_defined_type_name,
    enc_user_defined_value_type_definition, enc_using_for_directive, enc_variable_declaration,
    enc_variable_declaration_statement, enc_while_statement, lemma_seq_contract_node_of,
    lemma_seq_expr_of, lemma_seq_inheritance_specifier_of, lemma_seq_modifier_invocation_of,
    lemma_seq_opt_expr_of, lemma_seq_opt_variable_declaration_of,
    lemma_seq_source_unit_node_of, lemma_seq_stmt_of, lemma_seq_try_catch_clause_of,
    lemma_seq_type_name_of, lemma_seq_variable_declaration_of, opt_arr_expr_of,
    opt_arr_external_reference_of, opt_arr_inheritance_specifier_of,
    opt_arr_type_descriptions_of, opt_block_of, opt_doc_of, opt_expr_of, opt_free_of,
    opt_identifier_path_of, opt_override_specifier_of, opt_parameter_list_of, opt_spell_mik_of,
    opt_spell_mut_of, opt_spell_sl_of, opt_spell_sm_of, opt_stmt_of, opt_type_name_of,
    opt_user_defined_type_name_of, opt_variable_declaration_of, seq_contract_node_of,
    seq_documentation_custom_of, seq_documentation_parameter_of, seq_documentation_return_of,
    seq_enum_value_of, seq_expr_of, seq_external_reference_of, seq_identifier_path_of,
    seq_inheritance_specifier_of, seq_modifier_invocation_of, seq_opt_expr_of,
    seq_opt_variable_declaration_of, seq_source_unit_node_of, seq_stmt_of, seq_symbol_alias_of,
    seq_try_catch_clause_of, seq_type_descriptions_of, seq_type_name_of,
    seq_variable_declaration_of, spell_ck, spell_fk, spell_lit, spell_mik, spell_mut, spell_sl,
    spell_sm, spell_vis,
};
use crate::ast::common::spec_encode_location;
use crate::ast::types::spec_encode_elementary;
use crate::ast::{
    ArrayTypeName, Assignment, BinaryOperation, Block, Break, CommonType, Conditional,
    Continue, ContractDefinition, ContractDefinitionNode, ContractKind, DoWhileStatement,
    Documentation, ElementaryType, ElementaryTypeName, ElementaryTypeNameExpression,
    EmitStatement, EnumDefinition, EnumValue, ErrorDefinition, EventDefinition, Expression,
    ExpressionStatement, ExternalReference, ForStatement, FunctionCall, FunctionCallExpression,
    FunctionCallOptions, FunctionDefinition, FunctionKind, FunctionTypeName, Identifier,
    IdentifierPath, IfStatement, ImportDirective, IndexAccess, InheritanceSpecifier,
    InlineAssembly, Literal, LiteralKind, Mapping, MemberAccess, ModifierDefinition,
    ModifierInvocation, ModifierInvocationKind, Mutability, NewExpression, OverrideSpecifier,
    ParameterList, PlaceholderStatement, PragmaDirective, Return, RevertStatement,
    SourceLocation, SourceUnit, SourceUnitNode, StateMutability, Statement, StorageLocation,
    StructDefinition, StructuredDocumentation, StructuredDocumentationCustom,
    StructuredDocumentationParameter, StructuredDocumentationReturn, SymbolAlias,
    TryCatchClause, TryStatement, TupleExpression, TypeDescriptions, TypeName, UnaryOperation,
    UncheckedBlock, UserDefinedTypeName, UserDefinedValueTypeDefinition, UsingForDirective,
    VariableDeclaration, VariableDeclarationStatement, Visibility, WhileStatement,
};
use crate::json::{
    clone_json, jv, jv_lookup, jv_pairs, jv_seq, lemma_jv_pairs, lemma_jv_seq, obj_get, str_eq,
    JsonV, JsonValue,
};

verus! {

/// Decodes the elements of an array of type name members.
pub(crate) fn core_arr_type_name(elems: &Vec<JsonValue>) -> (r: Result<Vec<TypeName>, DecodeError>)
    ensures
        match r {
            Ok(xs) => canon_elems(jv_seq(elems@), 0, FieldKind::KChild(Child::CFam(Fam::TypeName))) == Ok::<Seq<JsonV>, ErrV>(seq_type_name_of(xs@)),
            Err(e) => canon_elems(jv_seq(elems@), 0, FieldKind::KChild(Child::CFam(Fam::TypeName))) == Err::<Seq<JsonV>, ErrV>(e.model()),
        },
    decreases jv_seq(elems@), 6int, 0int,
{
    proof {
        reveal(crate::ast::canon::canon_value);
        reveal(crate::ast::canon::canon_field);
    }
    let ghost s = jv_seq(elems@);
    let ghost ek = FieldKind::KChild(Child::CFam(Fam::TypeName));
    proof {
        lemma_jv_seq(elems@);
    }
    let n = elems.len();
    let mut out: Vec<TypeName> = Vec::new();
    let mut i: usize = 0;
    while i < n
        invariant
            i <= n,
            n == elems@.len(),
            s == jv_seq(elems@),
            s.len() == n,
            forall|j: int| 0 <= j < n ==> s[j] == jv(elems@[j]),
            out@.len() == i,
            forall|j: int| 0 <= j < i ==> canon_value(#[trigger] s[j], ek) == Ok::<JsonV, ErrV>(
                enc_type_name(out@[j]),
            ),
            ek == FieldKind::KChild(Child::CFam(Fam::TypeName)),
        decreases n - i,
    {
        let child = &elems[i];
        proof {
            assert(s[i as int] == jv(*child));
            assert(decreases_to!(s => s[i as int]));
        }
        match decode_type_name(child) {
            Ok(x) => {
                out.push(x);
                proof {
                    lemma_canon_value_child_unfold(s[i as int], Child::CFam(Fam::TypeName));
                    
                    assert(canon_value(s[i as int], ek) == Ok::<JsonV, ErrV>(enc_type_name(x)));
                }
            },
            Err(e) => {
                proof {
                    lemma_canon_value_child_unfold(s[i as int], Child::CFam(Fam::TypeName));
                    
                    crate::ast::dec_leaf::lemma_canon_node_err_shape(jv(*child), Fam::TypeName);
                    lemma_canon_elems_err(s, i as int, ek);
                    assert(prefix_err(idx_path(i as int), canon_value(s[i as int], ek)->Err_0)
                        == prefix_err(idx_path(i as int), e.model()));
                }
                return Err(prefix_index(i, e));
            },
        }
        i += 1;
    }
    proof {
        lemma_canon_elems_ok(s, ek);
        let cs = canon_elems(s, 0, ek)->Ok_0;
        crate::ast::shape::lemma_seq_type_name_of(out@);
        assert forall|j: int| 0 <= j < n implies cs[j] == seq_type_name_of(out@)[j] by {
            assert(canon_value(s[j], ek) == Ok::<JsonV, ErrV>(enc_type_name(out@[j])));
        }
        assert(cs =~= seq_type_name_of(out@));
    }
    Ok(out)
}

/// Reads a required array-of-type name member.
pub(crate) fn g_ac_type_name(ps: &Vec<(String, JsonValue)>, k: &str) -> (r: Result<Vec<TypeName>, DecodeError>)
    ensures
        field_matches(r, ps@, k@, FieldKind::KArrChild(Child::CFam(Fam::TypeName)), |x: Vec<TypeName>| Some(JsonV::Arr(seq_type_name_of(x@)))),
    decreases jv_pairs(ps@), 4int, 0int,
{
    proof {
        reveal(crate::ast::canon::canon_field);
        reveal(crate::ast::canon::canon_value);
    }
    match obj_get(ps, k) {
        None => Err(DecodeError::Missing(k.to_owned())),
        Some(v) => match v {
            JsonValue::Arr(elems) => {
                proof {
                    lemma_canon_value_arr_unfold(jv(*v), FieldKind::KArrChild(Child::CFam(Fam::TypeName)), FieldKind::KChild(Child::CFam(Fam::TypeName)));
                    assert(jv(*v) == JsonV::Arr(jv_seq(elems@)));
                    lemma_jv_pairs(ps@);
                    let i = choose|i: int| 0 <= i < ps@.len() && ps@[i].1 == *v;
                    assert(jv_pairs(ps@)[i] == (ps@[i].0@, jv(*v)));
                    assert(decreases_to!(jv_pairs(ps@) => jv_pairs(ps@)[i].1));
                    assert(jv(*v)->Arr_0 == jv_seq(elems@));
                    assert(decreases_to!(jv(*v) => jv(*v)->Arr_0));
                }
                match core_arr_type_name(elems) {
                    Ok(xs) => Ok(xs),
                    Err(e) => Err(prefix_field(k, e)),
                }
            },
            _ => {
                proof {
                    lemma_canon_value_arr_unfold(jv(*v), FieldKind::KArrChild(Child::CFam(Fam::TypeName)), FieldKind::KChild(Child::CFam(Fam::TypeName)));
                }
                Err(DecodeError::Invalid(k.to_owned()))
            },
        },
    }
}

/// Reads a required type_name member.
pub(crate) fn g_c_type_name(ps: &Vec<(String, JsonValue)>, k: &str) -> (r: Result<TypeName, DecodeError>)
    ensures
        field_matches(
            r,
            ps@,
            k@,
            FieldKind::KChild(Child::CFam(Fam::TypeName)),
            |x: TypeName| Some(enc_type_name(x)),
        ),
    decreases jv_pairs(ps@), 4int, 0int,
{
    proof {
        reveal(crate::ast::canon::canon_field);
        reveal(crate::ast::canon::canon_value);
    }
    match obj_get(ps, k) {
        None => Err(DecodeError::Missing(k.to_owned())),
        Some(v) => {
            proof {
                lemma_jv_pairs(ps@);
                let i = choose|i: int| 0 <= i < ps@.len() && ps@[i].1 == *v;
                assert(jv_pairs(ps@)[i] == (ps@[i].0@, jv(*v)));
                assert(decreases_to!(jv_pairs(ps@) => jv_pairs(ps@)[i].1));
            }
            match decode_type_name(v) {
                Ok(x) => Ok(x),
                Err(e) => {
                    proof {
                        crate::ast::dec_leaf::lemma_canon_node_err_shape(jv(*v), Fam::TypeName);
                    }
                    Err(prefix_field(k, e))
                },
            }
        },
    }
}

/// Reads an optional type name member.
pub(crate) fn g_oc_type_name(ps: &Vec<(String, JsonValue)>, k: &str) -> (r: Result<
    Option<TypeName>,
    DecodeError,
>)
    ensures
        field_matches(
            r,
            ps@,
            k@,
            FieldKind::KOptChild(Child::CFam(Fam::TypeName)),
            |x: Option<TypeName>| Some(opt_type_name_of(x)),
        ),
    decreases jv_pairs(ps@), 4int, 0int,
{
    proof {
        reveal(crate::ast::canon::canon_field);
        reveal(crate::ast::canon::canon_value);
    }
    match obj_get(ps, k) {
        None => Ok(None),
        Some(v) => match v {
            JsonValue::Null => {
                proof {
                    lemma_canon_value_opt_child_unfold(jv(*v), Child::CFam(Fam::TypeName));
                }
                Ok(None)
            },
            _ => {
                proof {
                    lemma_canon_value_opt_child_unfold(jv(*v), Child::CFam(Fam::TypeName));
                    lemma_jv_pairs(ps@);
                    let i = choose|i: int| 0 <= i < ps@.len() && ps@[i].1 == *v;
                    assert(jv_pairs(ps@)[i] == (ps@[i].0@, jv(*v)));
                    assert(decreases_to!(jv_pairs(ps@) => jv_pairs(ps@)[i].1));
                }
                match decode_type_name(v) {
                    Ok(x) => Ok(Some(x)),
                    Err(e) => {
                        proof {
                            crate::ast::dec_leaf::lemma_canon_node_err_shape(jv(*v), Fam::TypeName);
                        }
                        Err(prefix_field(k, e))
                    },
                }
            },
        },
    }
}

/// Reads an optional user defined type name member.
pub(crate) fn g_oc_user_defined_type_name(ps: &Vec<(String, JsonValue)>, k: &str) -> (r: Result<
    Option<UserDefinedTypeName>,
    DecodeError,
>)
    ensures
        field_matches(
            r,
            ps@,
            k@,
            FieldKind::KOptChild(Child::CRec(RecId::RUserDefinedTypeName)),
            |x: Option<UserDefinedTypeName>| Some(opt_user_defined_type_name_of(x)),
        ),
    decreases jv_pairs(ps@), 4int, 0int,
{
    proof {
        reveal(crate::ast::canon::canon_field);
        reveal(crate::ast::canon::canon_value);
    }
    match obj_get(ps, k) {
        None => Ok(None),
        Some(v) => match v {
            JsonValue::Null => {
                proof {
                    lemma_canon_value_opt_child_unfold(jv(*v), Child::CRec(RecId::RUserDefinedTypeName));
                }
                Ok(None)
            },
            JsonValue::Obj(cps) => {
                proof {
                    lemma_canon_value_opt_child_unfold(jv(*v), Child::CRec(RecId::RUserDefinedTypeName));
                    assert(jv(*v) == JsonV::Obj(jv_pairs(cps@)));
                    lemma_jv_pairs(ps@);
                    let i = choose|i: int| 0 <= i < ps@.len() && ps@[i].1 == *v;
                    assert(jv_pairs(ps@)[i] == (ps@[i].0@, jv(*v)));
                    assert(decreases_to!(jv_pairs(ps@) => jv_pairs(ps@)[i].1));
                    assert(jv(*v)->Obj_0 == jv_pairs(cps@));
                    assert(decreases_to!(jv(*v) => jv(*v)->Obj_0));
                }
                match decode_user_defined_type_name(cps) {
                    Ok(x) => Ok(Some(x)),
                    Err(e) => {
                        proof {
                            lemma_canon_fields_err_shape(jv_pairs(cps@), schema(RecId::RUserDefinedTypeName), 0);
                        }
                        Err(prefix_field(k, e))
                    },
                }
            },
            _ => {
                proof {
                    lemma_canon_value_opt_child_unfold(jv(*v), Child::CRec(RecId::RUserDefinedTypeName));
                }
                Err(DecodeError::Invalid(k.to_owned()))
            },
        },
    }
}

/// Decodes a userDefinedTypeName record from the members of an object.
pub fn decode_user_defined_type_name(ps: &Vec<(String, JsonValue)>) -> (r: Result<UserDefinedTypeName, DecodeError>)
    ensures
        match r {
            Ok(x) => canon_fields(jv_pairs(ps@), schema(RecId::RUserDefinedTypeName), 0) == Ok::<
                Seq<(Seq<char>, JsonV)>,
                ErrV,
            >(enc_user_defined_type_name(x)),
            Err(e) => canon_fields(jv_pairs(ps@), schema(RecId::RUserDefinedTypeName), 0) == Err::<
                Seq<(Seq<char>, JsonV)>,
                ErrV,
            >(e.model()),
        },
{
    let ghost psv = jv_pairs(ps@);
    let ghost fs = schema(RecId::RUserDefinedTypeName);
    let id = match g_i64(ps, "id") {
        Ok(x) => x,
        Err(e) => {
            proof {
                lemma_canon_fields_first_err(psv, fs, 0, 0, e.model());
            }
            return Err(e);
        },
    };
    let path_node = match crate::ast::dec_leaf::g_oc_identifier_path(ps, "pathNode") {
        Ok(x) => x,
        Err(e) => {
            proof {
                assert forall|m: int| 0 <= m < 1 implies canon_field(
                    psv,
                    (#[trigger] fs[m]).0,
                    fs[m].1,
                ) is Ok by {}
                lemma_canon_fields_first_err(psv, fs, 0, 1, e.model());
            }
            return Err(e);
        },
    };
    let referenced_declaration = match g_opt_i64(ps, "referenced_declaration") {
        Ok(x) => x,
        Err(e) => {
            proof {
                assert forall|m: int| 0 <= m < 2 implies canon_field(
                    psv,
                    (#[trigger] fs[m]).0,
                    fs[m].1,
                ) is Ok by {}
                lemma_canon_fields_first_err(psv, fs, 0, 2, e.model());
            }
            return Err(e);
        },
    };
    let src = match g_src(ps, "src") {
        Ok(x) => x,
        Err(e) => {
            proof {
                assert forall|m: int| 0 <= m < 3 implies canon_field(
                    psv,
                    (#[trigger] fs[m]).0,
                    fs[m].1,
                ) is Ok by {}
                lemma_canon_fields_first_err(psv, fs, 0, 3, e.model());
            }
            return Err(e);
        },
    };
    let type_descriptions = match crate::ast::dec_leaf::g_c_type_descriptions(ps, "typeDescriptions") {
        Ok(x) => x,
        Err(e) => {
            proof {
                assert forall|m: int| 0 <= m < 4 implies canon_field(
                    psv,
                    (#[trigger] fs[m]).0,
                    fs[m].1,
                ) is Ok by {}
                lemma_canon_fields_first_err(psv, fs, 0, 4, e.model());
            }
            return Err(e);
        },
    };
    let result = UserDefinedTypeName { id, path_node, referenced_declaration, src, type_descriptions };
    let ghost outs: Seq<(Seq<char>, Option<JsonV>)> = seq![
        ("id"@, Some(JsonV::Int(result.id as int))),
        ("pathNode"@, Some(opt_identifier_path_of(result.path_node))),
        ("referenced_declaration"@, Some(opt_int_of(result.referenced_declaration))),
        ("src"@, Some(JsonV::Str(spec_encode_location(result.src)))),
        ("typeDescriptions"@, Some(JsonV::Obj(enc_type_descriptions(result.type_descriptions)))),
    ];
    proof {
        assert forall|j: int| 0 <= j < fs.len() implies (#[trigger] outs[j]).0 == fs[j].0
            && canon_field(psv, fs[j].0, fs[j].1) == Ok::<Option<JsonV>, ErrV>(outs[j].1) by {}
        lemma_canon_fields_ok(psv, fs, outs, 0);
        assert(cat_opts(outs, 0) =~= enc_user_defined_type_name(result)) by {
            reveal_with_fuel(cat_opts, 7);
        }
    }
    Ok(result)
}

/// Decodes a arrayTypeName record from the members of an object.
pub fn decode_array_type_name(ps: &Vec<(String, JsonValue)>) -> (r: Result<ArrayTypeName, DecodeError>)
    ensures
        match r {
            Ok(x) => canon_fields(jv_pairs(ps@), schema(RecId::RArrayTypeName), 0) == Ok::<
                Seq<(Seq<char>, JsonV)>,
                ErrV,
            >(enc_array_type_name(x)),
            Err(e) => canon_fields(jv_pairs(ps@), schema(RecId::RArrayTypeName), 0) == Err::<
                Seq<(Seq<char>, JsonV)>,
                ErrV,
            >(e.model()),
        },
    decreases jv_pairs(ps@), 5int, 0int,
{
    let ghost psv = jv_pairs(ps@);
    let ghost fs = schema(RecId::RArrayTypeName);
    let id = match g_i64(ps, "id") {
        Ok(x) => x,
        Err(e) => {
            proof {
                lemma_canon_fields_first_err(psv, fs, 0, 0, e.model());
            }
            return Err(e);
        },
    };
    let base_type = match g_c_type_name(ps, "baseType") {
        Ok(x) => x,
        Err(e) => {
            proof {
                assert forall|m: int| 0 <= m < 1 implies canon_field(
                    psv,
                    (#[trigger] fs[m]).0,
                    fs[m].1,
                ) is Ok by {}
                lemma_canon_fields_first_err(psv, fs, 0, 1, e.model());
            }
            return Err(e);
        },
    };
    let length = match crate::ast::dec_expr::g_oc_expr(ps, "length") {
        Ok(x) => x,
        Err(e) => {
            proof {
                assert forall|m: int| 0 <= m < 2 implies canon_field(
                    psv,
                    (#[trigger] fs[m]).0,
                    fs[m].1,
                ) is Ok by {}
                lemma_canon_fields_first_err(psv, fs, 0, 2, e.model());
            }
            return Err(e);
        },
    };
    let src = match g_src(ps, "src") {
        Ok(x) => x,
        Err(e) => {
            proof {
                assert forall|m: int| 0 <= m < 3 implies canon_field(
                    psv,
                    (#[trigger] fs[m]).0,
                    fs[m].1,
                ) is Ok by {}
                lemma_canon_fields_first_err(psv, fs, 0, 3, e.model());
            }
            return Err(e);
        },
    };
    let result = ArrayTypeName { id, base_type, length, src };
    let ghost outs: Seq<(Seq<char>, Option<JsonV>)> = seq![
        ("id"@, Some(JsonV::Int(result.id as int))),
        ("baseType"@, Some(enc_type_name(result.base_type))),
        ("length"@, Some(opt_expr_of(result.length))),
        ("src"@, Some(JsonV::Str(spec_encode_location(result.src)))),
    ];
    proof {
        assert forall|j: int| 0 <= j < fs.len() implies (#[trigger] outs[j]).0 == fs[j].0
            && canon_field(psv, fs[j].0, fs[j].1) == Ok::<Option<JsonV>, ErrV>(outs[j].1) by {}
        lemma_canon_fields_ok(psv, fs, outs, 0);
        assert(cat_opts(outs, 0) =~= enc_array_type_name(result)) by {
            reveal_with_fuel(cat_opts, 6);
        }
    }
    Ok(result)
}

/// Decodes a functionTypeName record from the members of an object.
pub fn decode_function_type_name(ps: &Vec<(String, JsonValue)>) -> (r: Result<FunctionTypeName, DecodeError>)
    ensures
        match r {
            Ok(x) => canon_fields(jv_pairs(ps@), schema(RecId::RFunctionTypeName), 0) == Ok::<
                Seq<(Seq<char>, JsonV)>,
                ErrV,
            >(enc_function_type_name(x)),
            Err(e) => canon_fields(jv_pairs(ps@), schema(RecId::RFunctionTypeName), 0) == Err::<
                Seq<(Seq<char>, JsonV)>,
                ErrV,
            >(e.model()),
        },
    decreases jv_pairs(ps@), 5int, 0int,
{
    let ghost psv = jv_pairs(ps@);
    let ghost fs = schema(RecId::RFunctionTypeName);
    let id = match g_i64(ps, "id") {
        Ok(x) => x,
        Err(e) => {
            proof {
                lemma_canon_fields_first_err(psv, fs, 0, 0, e.model());
            }
            return Err(e);
        },
    };
    let parameter_types = match g_ac_type_name(ps, "parameterTypes") {
        Ok(x) => x,
        Err(e) => {
            proof {
                assert forall|m: int| 0 <= m < 1 implies canon_field(
                    psv,
                    (#[trigger] fs[m]).0,
                    fs[m].1,
                ) is Ok by {}
                lemma_canon_fields_first_err(psv, fs, 0, 1, e.model());
            }
            return Err(e);
        },
    };
    let return_parameter_types = match g_ac_type_name(ps, "returnParameterTypes") {
        Ok(x) => x,
        Err(e) => {
            proof {
                assert forall|m: int| 0 <= m < 2 implies canon_field(
                    psv,
                    (#[trigger] fs[m]).0,
                    fs[m].1,
                ) is Ok by {}
                lemma_canon_fields_first_err(psv, fs, 0, 2, e.model());
            }
            return Err(e);
        },
    };
    let visibility = match g_str(ps, "visibility") {
        Ok(x) => x,
        Err(e) => {
            proof {
                assert forall|m: int| 0 <= m < 3 implies canon_field(
                    psv,
                    (#[trigger] fs[m]).0,
                    fs[m].1,
                ) is Ok by {}
                lemma_canon_fields_first_err(psv, fs, 0, 3, e.model());
            }
            return Err(e);
        },
    };
    let state_mutability = match g_str(ps, "stateMutability") {
        Ok(x) => x,
        Err(e) => {
            proof {
                assert forall|m: int| 0 <= m < 4 implies canon_field(
                    psv,
                    (#[trigger] fs[m]).0,
                    fs[m].1,
                ) is Ok by {}
                lemma_canon_fields_first_err(psv, fs, 0, 4, e.model());
            }
            return Err(e);
        },
    };
    let src = match g_src(ps, "src") {
        Ok(x) => x,
        Err(e) => {
            proof {
                assert forall|m: int| 0 <= m < 5 implies canon_field(
                    psv,
                    (#[trigger] fs[m]).0,
                    fs[m].1,
                ) is Ok by {}
                lemma_canon_fields_first_err(psv, fs, 0, 5, e.model());
            }
            return Err(e);
        },
    };
    let result = FunctionTypeName { id, parameter_types, return_parameter_types, visibility, state_mutability, src };
    let ghost outs: Seq<(Seq<char>, Option<JsonV>)> = seq![
        ("id"@, Some(JsonV::Int(result.id as int))),
        ("parameterTypes"@, Some(JsonV::Arr(seq_type_name_of(result.parameter_types@)))),
        ("returnParameterTypes"@, Some(JsonV::Arr(seq_type_name_of(result.return_parameter_types@)))),
        ("visibility"@, Some(JsonV::Str(result.visibility@))),
        ("stateMutability"@, Some(JsonV::Str(result.state_mutability@))),
        ("src"@, Some(JsonV::Str(spec_encode_location(result.src)))),
    ];
    proof {
        assert forall|j: int| 0 <= j < fs.len() implies (#[trigger] outs[j]).0 == fs[j].0
            && canon_field(psv, fs[j].0, fs[j].1) == Ok::<Option<JsonV>, ErrV>(outs[j].1) by {}
        lemma_canon_fields_ok(psv, fs, outs, 0);
        assert(cat_opts(outs, 0) =~= enc_function_type_name(result)) by {
            reveal_with_fuel(cat_opts, 8);
        }
    }
    Ok(result)
}

/// Decodes a mapping record from the members of an object.
pub fn decode_mapping(ps: &Vec<(String, JsonValue)>) -> (r: Result<Mapping, DecodeError>)
    ensures
        match r {
            Ok(x) => canon_fields(jv_pairs(ps@), schema(RecId::RMapping), 0) == Ok::<
                Seq<(Seq<char>, JsonV)>,
                ErrV,
            >(enc_mapping(x)),
            Err(e) => canon_fields(jv_pairs(ps@), schema(RecId::RMapping), 0) == Err::<
                Seq<(Seq<char>, JsonV)>,
                ErrV,
            >(e.model()),
        },
    decreases jv_pairs(ps@), 5int, 0int,
{
    let ghost psv = jv_pairs(ps@);
    let ghost fs = schema(RecId::RMapping);
    let id = match g_i64(ps, "id") {
        Ok(x) => x,
        Err(e) => {
            proof {
                lemma_canon_fields_first_err(psv, fs, 0, 0, e.model());
            }
            return Err(e);
        },
    };
    let key_type = match g_c_type_name(ps, "keyType") {
        Ok(x) => x,
        Err(e) => {
            proof {
                assert forall|m: int| 0 <= m < 1 implies canon_field(
                    psv,
                    (#[trigger] fs[m]).0,
                    fs[m].1,
                ) is Ok by {}
                lemma_canon_fields_first_err(psv, fs, 0, 1, e.model());
            }
            return Err(e);
        },
    };
    let value_type = match g_c_type_name(ps, "valueType") {
        Ok(x) => x,
        Err(e) => {
            proof {
                assert forall|m: int| 0 <= m < 2 implies canon_field(
                    psv,
                    (#[trigger] fs[m]).0,
                    fs[m].1,
                ) is Ok by {}
                lemma_canon_fields_first_err(psv, fs, 0, 2, e.model());
            }
            return Err(e);
        },
    };
    let src = match g_src(ps, "src") {
        Ok(x) => x,
        Err(e) => {
            proof {
                assert forall|m: int| 0 <= m < 3 implies canon_field(
                    psv,
                    (#[trigger] fs[m]).0,
                    fs[m].1,
                ) is Ok by {}
                lemma_canon_fields_first_err(psv, fs, 0, 3, e.model());
            }
            return Err(e);
        },
    };
    let result = Mapping { id, key_type, value_type, src };
    let ghost outs: Seq<(Seq<char>, Option<JsonV>)> = seq![
        ("id"@, Some(JsonV::Int(result.id as int))),
        ("keyType"@, Some(enc_type_name(result.key_type))),
        ("valueType"@, Some(enc_type_name(result.value_type))),
        ("src"@, Some(JsonV::Str(spec_encode_location(result.src)))),
    ];
    proof {
        assert forall|j: int| 0 <= j < fs.len() implies (#[trigger] outs[j]).0 == fs[j].0
            && canon_field(psv, fs[j].0, fs[j].1) == Ok::<Option<JsonV>, ErrV>(outs[j].1) by {}
        lemma_canon_fields_ok(psv, fs, outs, 0);
        assert(cat_opts(outs, 0) =~= enc_mapping(result)) by {
            reveal_with_fuel(cat_opts, 6);
        }
    }
    Ok(result)
}

/// Decodes a typeName node: the discriminator selects the record; an
/// unrecognized discriminator is reported as such, distinct from a
/// malformed known kind.
pub fn decode_type_name(v: &JsonValue) -> (r: Result<TypeName, DecodeError>)
    ensures
        match r {
            Ok(x) => canon_node(jv(*v), Fam::TypeName) == Ok::<JsonV, ErrV>(enc_type_name(x)),
            Err(e) => canon_node(jv(*v), Fam::TypeName) == Err::<JsonV, ErrV>(e.model()),
        },
    decreases jv(*v), 5int, 1int,
{
    let ps = match v {
        JsonValue::Obj(ps) => ps,
        _ => {
            return Err(DecodeError::NotAnObject);
        },
    };
    proof {
        assert(jv(*v) == JsonV::Obj(jv_pairs(ps@)));
    }
    let tag = match obj_get(ps, "nodeType") {
        None => {
            return Err(DecodeError::Missing("nodeType".to_owned()));
        },
        Some(tv) => match tv {
            JsonValue::Str(s) => s,
            _ => {
                return Err(DecodeError::Invalid("nodeType".to_owned()));
            },
        },
    };
    if str_eq(tag.as_str(), "ArrayTypeName") {
        match decode_array_type_name(ps) {
            Ok(x) => {
                proof {
                    assert(canon_node(jv(*v), Fam::TypeName) matches Ok(c) && c =~~= enc_type_name(
                        TypeName::ArrayTypeName(Box::new(x)),
                    ));
                }
                Ok(TypeName::ArrayTypeName(Box::new(x)))
            },
            Err(e) => Err(e),
        }
    } else if str_eq(tag.as_str(), "ElementaryTypeName") {
        match crate::ast::dec_leaf::decode_elementary_type_name(ps) {
            Ok(x) => Ok(TypeName::ElementaryTypeName(Box::new(x))),
            Err(e) => Err(e),
        }
    } else if str_eq(tag.as_str(), "FunctionTypeName") {
        match decode_function_type_name(ps) {
            Ok(x) => {
                proof {
                    assert(canon_node(jv(*v), Fam::TypeName) matches Ok(c) && c =~~= enc_type_name(
                        TypeName::FunctionTypeName(Box::new(x)),
                    ));
                }
                Ok(TypeName::FunctionTypeName(Box::new(x)))
            },
            Err(e) => Err(e),
        }
    } else if str_eq(tag.as_str(), "Mapping") {
        match decode_mapping(ps) {
            Ok(x) => {
                proof {
                    assert(canon_node(jv(*v), Fam::TypeName) matches Ok(c) && c =~~= enc_type_name(
                        TypeName::Mapping(Box::new(x)),
                    ));
                }
                Ok(TypeName::Mapping(Box::new(x)))
            },
            Err(e) => Err(e),
        }
    } else if str_eq(tag.as_str(), "UserDefinedTypeName") {
        match decode_user_defined_type_name(ps) {
            Ok(x) => {
                proof {
                    assert(canon_node(jv(*v), Fam::TypeName) matches Ok(c) && c =~~= enc_type_name(
                        TypeName::UserDefinedTypeName(Box::new(x)),
                    ));
                }
                Ok(TypeName::UserDefinedTypeName(Box::new(x)))
            },
            Err(e) => Err(e),
        }
    } else {
        Err(DecodeError::UnknownDiscriminator(tag.clone()))
    }
}

} // verus!
