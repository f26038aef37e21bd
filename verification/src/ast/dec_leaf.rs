//! Decoders for the leaf records of the catalog, the documentation union,
//! and the shared member getters for enumerations, arrays and mappings.

use vstd::prelude::*;

use crate::ast::canon::{
    Child, DecodeError, EnumId, ErrV, Fam, FieldKind, RecId, canon_doc, canon_elems,
    canon_field, canon_fields, canon_members, canon_node, canon_rec, canon_value, cat_opts,
    enum_ok, fam_rec, idx_path, lemma_canon_fields_err_shape, lemma_canon_fields_first_err,
    lemma_canon_fields_ok, lemma_canon_value_arr_unfold, lemma_canon_value_child_unfold,
    lemma_canon_value_map_unfold, lemma_canon_value_opt_arr_unfold,
    lemma_canon_value_opt_child_unfold, prefix_err, prefix_field, prefix_index, rec_tag,
    schema,
};
use crate::ast::fields::{
    field_matches, g_arr_i64, g_bool, g_bool_or_int, g_bool_prefix_alias, g_def_arr_i64,
    g_elem, g_i64, g_opt_arr_i64, g_opt_bool, g_opt_i64, g_opt_str, g_opt_str_omit, g_src,
    g_str, ints_of, lemma_canon_elems_err, lemma_canon_elems_ok, map_ints_of, omit_str_of,
    opt_arr_ints_of, opt_bool_of, opt_int_of, opt_ints_of, opt_str_of, opt_strs_of, strs_of,
};
use crate::ast::shape::{
    enc_array_type_name, enc_assignment, enc_binary_operation, enc_block, enc_break_statement,
    enc_common_type, enc_conditional, enc_continue_statement, enc_contract_definition,
    enc_contract_node, enc_do_while_statement, enc_doc, enc_documentation_custom,
    enc_documentation_parameter, enc_documentation_return, enc_elementary_type_name,
    enc_elementary_type_name_expression, enc_emit_statement, enc_enum_definition,
    enc_enum_value, enc_error_definition, enc_event_definition, enc_expr,
    enc_expression_statement, enc_external_reference, enc_for_statement, enc_function_call,
    enc_function_call_expression, enc_function_call_options, enc_function_definition,
    enc_function_type_name, enc_identifier, enc_identifier_path, enc_if_statement,
    enc_import_directive, enc_index_access, enc_inheritance_specifier, enc_inline_assembly,
    enc_literal, enc_mapping, enc_member_access, enc_modifier_definition,
    enc_modifier_invocation, enc_new_expression, enc_override_specifier, enc_parameter_list,
    enc_placeholder_statement, enc_pragma_directive, enc_return_statement,
    enc_revert_statement, enc_source_unit, enc_source_unit_node, enc_stmt,
    enc_struct_definition, enc_structured_documentation, enc_symbol_alias,
    enc_try_catch_clause, enc_try_statement, enc_tuple_expression, enc_type_descriptions,
    enc_type_name, enc_unary_operation, enc_unchecked_block, enc_user_defined_type_name,
    enc_user_defined_value_type_definition, enc_using_for_directive, enc_variable_declaration,
    enc_variable_declaration_statement, enc_while_statement, lemma_seq_contract_node_of,
    lemma_seq_expr_of, lemma_seq_inheritance_specifier_of, lemma_seq_modifier_invocation_of,
    lemma_seq_opt_expr_of, lemma_seq_opt_variable_declaration_of,
    lemma_seq_source_unit_node_of, lemma_seq_stmt_of, lemma_seq_try_catch_clause_of,
    lemma_seq_type_name_of, lemma_seq_variable_declaration_of, opt_arr_expr_of,
    opt_arr_external_reference_of, opt_arr_inheritance_specifier_of,
    opt_arr_type_descriptions_of, opt_block_of, opt_doc_of, opt_expr_of, opt_free_of,
    opt_identifier_path_of, opt_override_specifier_of, opt_parameter_list_of, opt_spell_mik_of,
    opt_spell_mut_of, opt_spell_sl_of, opt_spell_sm_of, opt_stmt_of, opt_type_name_of,
    opt_user_defined_type_name_of, opt_variable_declaration_of, seq_contract_node_of,
    seq_documentation_custom_of, seq_documentation_parameter_of, seq_documentation_return_of,
    seq_enum_value_of, seq_expr_of, seq_external_reference_of, seq_identifier_path_of,
    seq_inheritance_specifier_of, seq_modifier_invocation_of, seq_opt_expr_of,
    seq_opt_variable_declaration_of, seq_source_unit_node_of, seq_stmt_of, seq_symbol_alias_of,
    seq_try_catch_clause_of, seq_type_descriptions_of, seq_type_name_of,
    seq_variable_declaration_of, spell_ck, spell_fk, spell_lit, spell_mik, spell_mut, spell_sl,
    spell_sm, spell_vis,
};
use crate::ast::common::spec_encode_location;
use crate::ast::types::spec_encode_elementary;
use crate::ast::{
    ArrayTypeName, Assignment, BinaryOperation, Block, Break, CommonType, Conditional,
    Continue, ContractDefinition, ContractDefinitionNode, ContractKind, DoWhileStatement,
    Documentation, ElementaryType, ElementaryTypeName, ElementaryTypeNameExpression,
    EmitStatement, EnumDefinition, EnumValue, ErrorDefinition, EventDefinition, Expression,
    ExpressionStatement, ExternalReference, ForStatement, FunctionCall, FunctionCallExpression,
    FunctionCallOptions, FunctionDefinition, FunctionKind, FunctionTypeName, Identifier,
    IdentifierPath, IfStatement, ImportDirective, IndexAccess, InheritanceSpecifier,
    InlineAssembly, Literal, LiteralKind, Mapping, MemberAccess, ModifierDefinition,
    ModifierInvocation, ModifierInvocationKind, Mutability, NewExpression, OverrideSpecifier,
    ParameterList, PlaceholderStatement, PragmaDirective, Return, RevertStatement,
    SourceLocation, SourceUnit, SourceUnitNode, StateMutability, Statement, StorageLocation,
    StructDefinition, StructuredDocumentation, StructuredDocumentationCustom,
    StructuredDocumentationParameter, StructuredDocumentationReturn, SymbolAlias,
    TryCatchClause, TryStatement, TupleExpression, TypeDescriptions, TypeName, UnaryOperation,
    UncheckedBlock, UserDefinedTypeName, UserDefinedValueTypeDefinition, UsingForDirective,
    VariableDeclaration, VariableDeclarationStatement, Visibility, WhileStatement,
};
use crate::json::{
    clone_json, jv, jv_lookup, jv_pairs, jv_seq, lemma_jv_pairs, lemma_jv_seq, obj_get, str_eq,
    JsonV, JsonValue,
};

verus! {

/// Parses the wire spelling of a Visibility value.
pub fn parse_vis(s: &str) -> (r: Option<Visibility>)
    ensures
        match r {
            Some(x) => s@ == spell_vis(x) && enum_ok(EnumId::EVisibility, s@),
            None => !enum_ok(EnumId::EVisibility, s@),
        },
{
    if str_eq(s, "external") {
        Some(Visibility::External)
    } else if str_eq(s, "public") {
        Some(Visibility::Public)
    } else if str_eq(s, "internal") {
        Some(Visibility::Internal)
    } else if str_eq(s, "private") {
        Some(Visibility::Private)
    } else {
        None
    }
}

/// Reads a required Visibility member.
pub(crate) fn g_enum_vis(ps: &Vec<(String, JsonValue)>, k: &str) -> (r: Result<Visibility, DecodeError>)
    ensures
        field_matches(
            r,
            ps@,
            k@,
            FieldKind::KEnum(EnumId::EVisibility),
            |x: Visibility| Some(JsonV::Str(spell_vis(x))),
        ),
{
    proof {
        reveal(crate::ast::canon::canon_field);
        reveal(crate::ast::canon::canon_value);
    }
    match obj_get(ps, k) {
        None => Err(DecodeError::Missing(k.to_owned())),
        Some(v) => match v {
            JsonValue::Str(s) => match parse_vis(s.as_str()) {
                Some(x) => Ok(x),
                None => Err(DecodeError::Invalid(k.to_owned())),
            },
            _ => Err(DecodeError::Invalid(k.to_owned())),
        },
    }
}

/// Parses the wire spelling of a StateMutability value.
pub fn parse_sm(s: &str) -> (r: Option<StateMutability>)
    ensures
        match r {
            Some(x) => s@ == spell_sm(x) && enum_ok(EnumId::EStateMutability, s@),
            None => !enum_ok(EnumId::EStateMutability, s@),
        },
{
    if str_eq(s, "pure") {
        Some(StateMutability::Pure)
    } else if str_eq(s, "view") {
        Some(StateMutability::View)
    } else if str_eq(s, "nonpayable") {
        Some(StateMutability::Nonpayable)
    } else if str_eq(s, "payable") {
        Some(StateMutability::Payable)
    } else {
        None
    }
}

/// Reads a required StateMutability member.
pub(crate) fn g_enum_sm(ps: &Vec<(String, JsonValue)>, k: &str) -> (r: Result<StateMutability, DecodeError>)
    ensures
        field_matches(
            r,
            ps@,
            k@,
            FieldKind::KEnum(EnumId::EStateMutability),
            |x: StateMutability| Some(JsonV::Str(spell_sm(x))),
        ),
{
    proof {
        reveal(crate::ast::canon::canon_field);
        reveal(crate::ast::canon::canon_value);
    }
    match obj_get(ps, k) {
        None => Err(DecodeError::Missing(k.to_owned())),
        Some(v) => match v {
            JsonValue::Str(s) => match parse_sm(s.as_str()) {
                Some(x) => Ok(x),
                None => Err(DecodeError::Invalid(k.to_owned())),
            },
            _ => Err(DecodeError::Invalid(k.to_owned())),
        },
    }
}

/// Reads an optional StateMutability member.
pub(crate) fn g_oenum_sm(ps: &Vec<(String, JsonValue)>, k: &str) -> (r: Result<
    Option<StateMutability>,
    DecodeError,
>)
    ensures
        field_matches(
            r,
            ps@,
            k@,
            FieldKind::KOptEnum(EnumId::EStateMutability),
            |x: Option<StateMutability>| Some(opt_spell_sm_of(x)),
        ),
{
    proof {
        reveal(crate::ast::canon::canon_field);
        reveal(crate::ast::canon::canon_value);
    }
    match obj_get(ps, k) {
        None => Ok(None),
        Some(v) => match v {
            JsonValue::Null => Ok(None),
            JsonValue::Str(s) => match parse_sm(s.as_str()) {
                Some(x) => Ok(Some(x)),
                None => Err(DecodeError::Invalid(k.to_owned())),
            },
            _ => Err(DecodeError::Invalid(k.to_owned())),
        },
    }
}

/// Parses the wire spelling of a StorageLocation value.
pub fn parse_sl(s: &str) -> (r: Option<StorageLocation>)
    ensures
        match r {
            Some(x) => s@ == spell_sl(x) && enum_ok(EnumId::EStorageLocation, s@),
            None => !enum_ok(EnumId::EStorageLocation, s@),
        },
{
    if str_eq(s, "default") {
        Some(StorageLocation::Default)
    } else if str_eq(s, "memory") {
        Some(StorageLocation::Memory)
    } else if str_eq(s, "storage") {
        Some(StorageLocation::Storage)
    } else if str_eq(s, "calldata") {
        Some(StorageLocation::Calldata)
    } else {
        None
    }
}

/// Reads an optional StorageLocation member.
pub(crate) fn g_oenum_sl(ps: &Vec<(String, JsonValue)>, k: &str) -> (r: Result<
    Option<StorageLocation>,
    DecodeError,
>)
    ensures
        field_matches(
            r,
            ps@,
            k@,
            FieldKind::KOptEnum(EnumId::EStorageLocation),
            |x: Option<StorageLocation>| Some(opt_spell_sl_of(x)),
        ),
{
    proof {
        reveal(crate::ast::canon::canon_field);
        reveal(crate::ast::canon::canon_value);
    }
    match obj_get(ps, k) {
        None => Ok(None),
        Some(v) => match v {
            JsonValue::Null => Ok(None),
            JsonValue::Str(s) => match parse_sl(s.as_str()) {
                Some(x) => Ok(Some(x)),
                None => Err(DecodeError::Invalid(k.to_owned())),
            },
            _ => Err(DecodeError::Invalid(k.to_owned())),
        },
    }
}

/// Parses the wire spelling of a Mutability value.
pub fn parse_mut(s: &str) -> (r: Option<Mutability>)
    ensures
        match r {
            Some(x) => s@ == spell_mut(x) && enum_ok(EnumId::EMutability, s@),
            None => !enum_ok(EnumId::EMutability, s@),
        },
{
    if str_eq(s, "mutable") {
        Some(Mutability::Mutable)
    } else if str_eq(s, "immutable") {
        Some(Mutability::Immutable)
    } else if str_eq(s, "constant") {
        Some(Mutability::Constant)
    } else {
        None
    }
}

/// Reads an optional Mutability member.
pub(crate) fn g_oenum_mut(ps: &Vec<(String, JsonValue)>, k: &str) -> (r: Result<
    Option<Mutability>,
    DecodeError,
>)
    ensures
        field_matches(
            r,
            ps@,
            k@,
            FieldKind::KOptEnum(EnumId::EMutability),
            |x: Option<Mutability>| Some(opt_spell_mut_of(x)),
        ),
{
    proof {
        reveal(crate::ast::canon::canon_field);
        reveal(crate::ast::canon::canon_value);
    }
    match obj_get(ps, k) {
        None => Ok(None),
        Some(v) => match v {
            JsonValue::Null => Ok(None),
            JsonValue::Str(s) => match parse_mut(s.as_str()) {
                Some(x) => Ok(Some(x)),
                None => Err(DecodeError::Invalid(k.to_owned())),
            },
            _ => Err(DecodeError::Invalid(k.to_owned())),
        },
    }
}

/// Parses the wire spelling of a LiteralKind value.
pub fn parse_lit(s: &str) -> (r: Option<LiteralKind>)
    ensures
        match r {
            Some(x) => s@ == spell_lit(x) && enum_ok(EnumId::ELiteralKind, s@),
            None => !enum_ok(EnumId::ELiteralKind, s@),
        },
{
    if str_eq(s, "bool") {
        Some(LiteralKind::Bool)
    } else if str_eq(s, "number") {
        Some(LiteralKind::Number)
    } else if str_eq(s, "string") {
        Some(LiteralKind::String)
    } else if str_eq(s, "hexString") {
        Some(LiteralKind::HexString)
    } else if str_eq(s, "unicodeString") {
        Some(LiteralKind::UnicodeString)
    } else {
        None
    }
}

/// Reads a required LiteralKind member.
pub(crate) fn g_enum_lit(ps: &Vec<(String, JsonValue)>, k: &str) -> (r: Result<LiteralKind, DecodeError>)
    ensures
        field_matches(
            r,
            ps@,
            k@,
            FieldKind::KEnum(EnumId::ELiteralKind),
            |x: LiteralKind| Some(JsonV::Str(spell_lit(x))),
        ),
{
    proof {
        reveal(crate::ast::canon::canon_field);
        reveal(crate::ast::canon::canon_value);
    }
    match obj_get(ps, k) {
        None => Err(DecodeError::Missing(k.to_owned())),
        Some(v) => match v {
            JsonValue::Str(s) => match parse_lit(s.as_str()) {
                Some(x) => Ok(x),
                None => Err(DecodeError::Invalid(k.to_owned())),
            },
            _ => Err(DecodeError::Invalid(k.to_owned())),
        },
    }
}

/// Parses the wire spelling of a ContractKind value.
pub fn parse_ck(s: &str) -> (r: Option<ContractKind>)
    ensures
        match r {
            Some(x) => s@ == spell_ck(x) && enum_ok(EnumId::EContractKind, s@),
            None => !enum_ok(EnumId::EContractKind, s@),
        },
{
    if str_eq(s, "contract") {
        Some(ContractKind::Contract)
    } else if str_eq(s, "interface") {
        Some(ContractKind::Interface)
    } else if str_eq(s, "library") {
        Some(ContractKind::Library)
    } else {
        None
    }
}

/// Reads a required ContractKind member.
pub(crate) fn g_enum_ck(ps: &Vec<(String, JsonValue)>, k: &str) -> (r: Result<ContractKind, DecodeError>)
    ensures
        field_matches(
            r,
            ps@,
            k@,
            FieldKind::KEnum(EnumId::EContractKind),
            |x: ContractKind| Some(JsonV::Str(spell_ck(x))),
        ),
{
    proof {
        reveal(crate::ast::canon::canon_field);
        reveal(crate::ast::canon::canon_value);
    }
    match obj_get(ps, k) {
        None => Err(DecodeError::Missing(k.to_owned())),
        Some(v) => match v {
            JsonValue::Str(s) => match parse_ck(s.as_str()) {
                Some(x) => Ok(x),
                None => Err(DecodeError::Invalid(k.to_owned())),
            },
            _ => Err(DecodeError::Invalid(k.to_owned())),
        },
    }
}

/// Parses the wire spelling of a FunctionKind value.
pub fn parse_fk(s: &str) -> (r: Option<FunctionKind>)
    ensures
        match r {
            Some(x) => s@ == spell_fk(x) && enum_ok(EnumId::EFunctionKind, s@),
            None => !enum_ok(EnumId::EFunctionKind, s@),
        },
{
    if str_eq(s, "constructor") {
        Some(FunctionKind::Constructor)
    } else if str_eq(s, "function") {
        Some(FunctionKind::Function)
    } else if str_eq(s, "receive") {
        Some(FunctionKind::Receive)
    } else if str_eq(s, "fallback") {
        Some(FunctionKind::Fallback)
    } else if str_eq(s, "freeFunction") {
        Some(FunctionKind::FreeFunction)
    } else {
        None
    }
}

/// Reads a required FunctionKind member.
pub(crate) fn g_enum_fk(ps: &Vec<(String, JsonValue)>, k: &str) -> (r: Result<FunctionKind, DecodeError>)
    ensures
        field_matches(
            r,
            ps@,
            k@,
            FieldKind::KEnum(EnumId::EFunctionKind),
            |x: FunctionKind| Some(JsonV::Str(spell_fk(x))),
        ),
{
    proof {
        reveal(crate::ast::canon::canon_field);
        reveal(crate::ast::canon::canon_value);
    }
    match obj_get(ps, k) {
        None => Err(DecodeError::Missing(k.to_owned())),
        Some(v) => match v {
            JsonValue::Str(s) => match parse_fk(s.as_str()) {
                Some(x) => Ok(x),
                None => Err(DecodeError::Invalid(k.to_owned())),
            },
            _ => Err(DecodeError::Invalid(k.to_owned())),
        },
    }
}

/// Parses the wire spelling of a ModifierInvocationKind value.
pub fn parse_mik(s: &str) -> (r: Option<ModifierInvocationKind>)
    ensures
        match r {
            Some(x) => s@ == spell_mik(x) && enum_ok(EnumId::EModifierInvocationKind, s@),
            None => !enum_ok(EnumId::EModifierInvocationKind, s@),
        },
{
    if str_eq(s, "modifier") {
        Some(ModifierInvocationKind::Modifier)
    } else if str_eq(s, "baseConstructorSpecifier") {
        Some(ModifierInvocationKind::BaseConstructorSpecifier)
    } else if str_eq(s, "modifierInvocation") {
        Some(ModifierInvocationKind::ModifierInvocation)
    } else {
        None
    }
}

/// Reads an optional ModifierInvocationKind member.
pub(crate) fn g_oenum_mik(ps: &Vec<(String, JsonValue)>, k: &str) -> (r: Result<
    Option<ModifierInvocationKind>,
    DecodeError,
>)
    ensures
        field_matches(
            r,
            ps@,
            k@,
            FieldKind::KOptEnum(EnumId::EModifierInvocationKind),
            |x: Option<ModifierInvocationKind>| Some(opt_spell_mik_of(x)),
        ),
{
    proof {
        reveal(crate::ast::canon::canon_field);
        reveal(crate::ast::canon::canon_value);
    }
    match obj_get(ps, k) {
        None => Ok(None),
        Some(v) => match v {
            JsonValue::Null => Ok(None),
            JsonValue::Str(s) => match parse_mik(s.as_str()) {
                Some(x) => Ok(Some(x)),
                None => Err(DecodeError::Invalid(k.to_owned())),
            },
            _ => Err(DecodeError::Invalid(k.to_owned())),
        },
    }
}


/// Decodes the elements of an array of integers.
pub(crate) fn core_arr_i64(elems: &Vec<JsonValue>) -> (r: Result<Vec<i64>, DecodeError>)
    ensures
        match r {
            Ok(xs) => canon_elems(jv_seq(elems@), 0, FieldKind::KI64) == Ok::<Seq<JsonV>, ErrV>(
                ints_of(xs@),
            ),
            Err(e) => canon_elems(jv_seq(elems@), 0, FieldKind::KI64) == Err::<Seq<JsonV>, ErrV>(
                e.model(),
            ),
        },
{
    proof {
        reveal(crate::ast::canon::canon_value);
    }
    let ghost s = jv_seq(elems@);
    let ghost ek = FieldKind::KI64;
    proof {
        lemma_jv_seq(elems@);
    }
    let n = elems.len();
    let mut out: Vec<i64> = Vec::new();
    let mut i: usize = 0;
    while i < n
        invariant
            i <= n,
            n == elems@.len(),
            s == jv_seq(elems@),
            s.len() == n,
            forall|j: int| 0 <= j < n ==> s[j] == jv(elems@[j]),
            out@.len() == i,
            forall|j: int| 0 <= j < i ==> canon_value(#[trigger] s[j], ek) == Ok::<JsonV, ErrV>(
                JsonV::Int(out@[j] as int),
            ),
            ek == FieldKind::KI64,
        decreases n - i,
    {
        let child = &elems[i];
        proof {
            reveal(crate::ast::canon::canon_value);
            assert(s[i as int] == jv(*child));
        }
        match child {
            JsonValue::Int(x) => {
                out.push(*x);
            },
            _ => {
                proof {
                    lemma_canon_elems_err(s, i as int, ek);
                }
                return Err(prefix_index(i, DecodeError::Invalid(String::new())));
            },
        }
        i += 1;
    }
    proof {
        lemma_canon_elems_ok(s, ek);
        let cs = canon_elems(s, 0, ek)->Ok_0;
        assert forall|j: int| 0 <= j < n implies cs[j] == ints_of(out@)[j] by {
            assert(canon_value(s[j], ek) == Ok::<JsonV, ErrV>(JsonV::Int(out@[j] as int)));
        }
        assert(cs =~= ints_of(out@));
    }
    Ok(out)
}


/// Decodes the elements of an array of strings.
pub(crate) fn core_arr_str(elems: &Vec<JsonValue>) -> (r: Result<Vec<String>, DecodeError>)
    ensures
        match r {
            Ok(xs) => canon_elems(jv_seq(elems@), 0, FieldKind::KStr) == Ok::<Seq<JsonV>, ErrV>(
                strs_of(xs@),
            ),
            Err(e) => canon_elems(jv_seq(elems@), 0, FieldKind::KStr) == Err::<Seq<JsonV>, ErrV>(
                e.model(),
            ),
        },
{
    proof {
        reveal(crate::ast::canon::canon_value);
    }
    let ghost s = jv_seq(elems@);
    let ghost ek = FieldKind::KStr;
    proof {
        lemma_jv_seq(elems@);
    }
    let n = elems.len();
    let mut out: Vec<String> = Vec::new();
    let mut i: usize = 0;
    while i < n
        invariant
            i <= n,
            n == elems@.len(),
            s == jv_seq(elems@),
            s.len() == n,
            forall|j: int| 0 <= j < n ==> s[j] == jv(elems@[j]),
            out@.len() == i,
            forall|j: int| 0 <= j < i ==> canon_value(#[trigger] s[j], ek) == Ok::<JsonV, ErrV>(
                JsonV::Str(out@[j]@),
            ),
            ek == FieldKind::KStr,
        decreases n - i,
    {
        let child = &elems[i];
        proof {
            reveal(crate::ast::canon::canon_value);
            assert(s[i as int] == jv(*child));
        }
        match child {
            JsonValue::Str(st) => {
                out.push(st.clone());
            },
            _ => {
                proof {
                    lemma_canon_elems_err(s, i as int, ek);
                }
                return Err(prefix_index(i, DecodeError::Invalid(String::new())));
            },
        }
        i += 1;
    }
    proof {
        lemma_canon_elems_ok(s, ek);
        let cs = canon_elems(s, 0, ek)->Ok_0;
        assert forall|j: int| 0 <= j < n implies cs[j] == strs_of(out@)[j] by {
            assert(canon_value(s[j], ek) == Ok::<JsonV, ErrV>(JsonV::Str(out@[j]@)));
        }
        assert(cs =~= strs_of(out@));
    }
    Ok(out)
}

/// Reads a required array-of-strings member.
pub(crate) fn g_arr_str(ps: &Vec<(String, JsonValue)>, k: &str) -> (r: Result<
    Vec<String>,
    DecodeError,
>)
    ensures
        field_matches(
            r,
            ps@,
            k@,
            FieldKind::KArrStr,
            |x: Vec<String>| Some(JsonV::Arr(strs_of(x@))),
        ),
{
    proof {
        reveal(crate::ast::canon::canon_field);
        reveal(crate::ast::canon::canon_value);
    }
    match obj_get(ps, k) {
        None => Err(DecodeError::Missing(k.to_owned())),
        Some(v) => match v {
            JsonValue::Arr(elems) => {
                proof {
                    lemma_canon_value_arr_unfold(jv(*v), FieldKind::KArrStr, FieldKind::KStr);
                    assert(jv(*v) == JsonV::Arr(jv_seq(elems@)));
                }
                match core_arr_str(elems) {
                    Ok(xs) => Ok(xs),
                    Err(e) => Err(prefix_field(k, e)),
                }
            },
            _ => {
                proof {
                    lemma_canon_value_arr_unfold(jv(*v), FieldKind::KArrStr, FieldKind::KStr);
                }
                Err(DecodeError::Invalid(k.to_owned()))
            },
        },
    }
}

/// Reads an array-of-strings member that is empty when absent.
pub(crate) fn g_def_arr_str(ps: &Vec<(String, JsonValue)>, k: &str) -> (r: Result<
    Vec<String>,
    DecodeError,
>)
    ensures
        field_matches(
            r,
            ps@,
            k@,
            FieldKind::KDefArrStr,
            |x: Vec<String>| Some(JsonV::Arr(strs_of(x@))),
        ),
{
    proof {
        reveal(crate::ast::canon::canon_field);
        reveal(crate::ast::canon::canon_value);
    }
    match obj_get(ps, k) {
        None => {
            let out: Vec<String> = Vec::new();
            proof {
                assert(strs_of(out@) =~= Seq::<JsonV>::empty());
            }
            Ok(out)
        },
        Some(v) => match v {
            JsonValue::Arr(elems) => {
                proof {
                    lemma_canon_value_arr_unfold(jv(*v), FieldKind::KDefArrStr, FieldKind::KStr);
                    assert(jv(*v) == JsonV::Arr(jv_seq(elems@)));
                }
                match core_arr_str(elems) {
                    Ok(xs) => Ok(xs),
                    Err(e) => Err(prefix_field(k, e)),
                }
            },
            _ => {
                proof {
                    lemma_canon_value_arr_unfold(jv(*v), FieldKind::KDefArrStr, FieldKind::KStr);
                }
                Err(DecodeError::Invalid(k.to_owned()))
            },
        },
    }
}

/// Reads an optional array-of-strings member.
pub(crate) fn g_opt_arr_str(ps: &Vec<(String, JsonValue)>, k: &str) -> (r: Result<
    Option<Vec<String>>,
    DecodeError,
>)
    ensures
        field_matches(
            r,
            ps@,
            k@,
            FieldKind::KOptArrStr,
            |x: Option<Vec<String>>| Some(opt_strs_of(x)),
        ),
{
    proof {
        reveal(crate::ast::canon::canon_field);
        reveal(crate::ast::canon::canon_value);
    }
    match obj_get(ps, k) {
        None => Ok(None),
        Some(v) => match v {
            JsonValue::Null => {
                proof {
                    lemma_canon_value_opt_arr_unfold(jv(*v), FieldKind::KOptArrStr, FieldKind::KStr);
                }
                Ok(None)
            },
            JsonValue::Arr(elems) => {
                proof {
                    lemma_canon_value_opt_arr_unfold(jv(*v), FieldKind::KOptArrStr, FieldKind::KStr);
                    assert(jv(*v) == JsonV::Arr(jv_seq(elems@)));
                }
                match core_arr_str(elems) {
                    Ok(xs) => Ok(Some(xs)),
                    Err(e) => Err(prefix_field(k, e)),
                }
            },
            _ => {
                proof {
                    lemma_canon_value_opt_arr_unfold(jv(*v), FieldKind::KOptArrStr, FieldKind::KStr);
                }
                Err(DecodeError::Invalid(k.to_owned()))
            },
        },
    }
}

/// Decodes the elements of an array of integers or nulls.
pub(crate) fn core_arr_opt_i64(elems: &Vec<JsonValue>) -> (r: Result<
    Vec<Option<i64>>,
    DecodeError,
>)
    ensures
        match r {
            Ok(xs) => canon_elems(jv_seq(elems@), 0, FieldKind::KOptI64) == Ok::<
                Seq<JsonV>,
                ErrV,
            >(opt_ints_of(xs@)),
            Err(e) => canon_elems(jv_seq(elems@), 0, FieldKind::KOptI64) == Err::<
                Seq<JsonV>,
                ErrV,
            >(e.model()),
        },
{
    proof {
        reveal(crate::ast::canon::canon_value);
    }
    let ghost s = jv_seq(elems@);
    let ghost ek = FieldKind::KOptI64;
    proof {
        lemma_jv_seq(elems@);
    }
    let n = elems.len();
    let mut out: Vec<Option<i64>> = Vec::new();
    let mut i: usize = 0;
    while i < n
        invariant
            i <= n,
            n == elems@.len(),
            s == jv_seq(elems@),
            s.len() == n,
            forall|j: int| 0 <= j < n ==> s[j] == jv(elems@[j]),
            out@.len() == i,
            forall|j: int| 0 <= j < i ==> canon_value(#[trigger] s[j], ek) == Ok::<JsonV, ErrV>(
                opt_ints_of(out@)[j],
            ),
            ek == FieldKind::KOptI64,
        decreases n - i,
    {
        let child = &elems[i];
        proof {
            reveal(crate::ast::canon::canon_value);
            assert(s[i as int] == jv(*child));
        }
        match child {
            JsonValue::Null => {
                out.push(None);
            },
            JsonValue::Int(x) => {
                out.push(Some(*x));
            },
            _ => {
                proof {
                    lemma_canon_elems_err(s, i as int, ek);
                }
                return Err(prefix_index(i, DecodeError::Invalid(String::new())));
            },
        }
        i += 1;
    }
    proof {
        lemma_canon_elems_ok(s, ek);
        let cs = canon_elems(s, 0, ek)->Ok_0;
        assert forall|j: int| 0 <= j < n implies cs[j] == opt_ints_of(out@)[j] by {
            assert(canon_value(s[j], ek) == Ok::<JsonV, ErrV>(opt_ints_of(out@)[j]));
        }
        assert(cs =~= opt_ints_of(out@));
    }
    Ok(out)
}

/// Reads a required array member of integers or nulls.
pub(crate) fn g_arr_opt_i64(ps: &Vec<(String, JsonValue)>, k: &str) -> (r: Result<
    Vec<Option<i64>>,
    DecodeError,
>)
    ensures
        field_matches(
            r,
            ps@,
            k@,
            FieldKind::KArrOptI64,
            |x: Vec<Option<i64>>| Some(JsonV::Arr(opt_ints_of(x@))),
        ),
{
    proof {
        reveal(crate::ast::canon::canon_field);
        reveal(crate::ast::canon::canon_value);
    }
    match obj_get(ps, k) {
        None => Err(DecodeError::Missing(k.to_owned())),
        Some(v) => match v {
            JsonValue::Arr(elems) => {
                proof {
                    lemma_canon_value_arr_unfold(
                        jv(*v),
                        FieldKind::KArrOptI64,
                        FieldKind::KOptI64,
                    );
                    assert(jv(*v) == JsonV::Arr(jv_seq(elems@)));
                }
                match core_arr_opt_i64(elems) {
                    Ok(xs) => Ok(xs),
                    Err(e) => Err(prefix_field(k, e)),
                }
            },
            _ => {
                proof {
                    lemma_canon_value_arr_unfold(
                        jv(*v),
                        FieldKind::KArrOptI64,
                        FieldKind::KOptI64,
                    );
                }
                Err(DecodeError::Invalid(k.to_owned()))
            },
        },
    }
}

/// Reads a name-to-integer-array mapping member, empty when absent.
pub(crate) fn g_map_arr_i64(ps: &Vec<(String, JsonValue)>, k: &str) -> (r: Result<
    Vec<(String, Vec<i64>)>,
    DecodeError,
>)
    ensures
        field_matches(
            r,
            ps@,
            k@,
            FieldKind::KMapArrI64Def,
            |x: Vec<(String, Vec<i64>)>| Some(JsonV::Obj(map_ints_of(x@))),
        ),
{
    proof {
        reveal(crate::ast::canon::canon_field);
        reveal(crate::ast::canon::canon_value);
    }
    match obj_get(ps, k) {
        None => {
            let out: Vec<(String, Vec<i64>)> = Vec::new();
            proof {
                assert(map_ints_of(out@) =~= Seq::<(Seq<char>, JsonV)>::empty());
            }
            Ok(out)
        },
        Some(v) => match v {
            JsonValue::Obj(members) => {
                proof {
                    lemma_canon_value_map_unfold(jv(*v));
                    assert(jv(*v) == JsonV::Obj(jv_pairs(members@)));
                }
                match core_map_members(members) {
                    Ok(xs) => Ok(xs),
                    Err(e) => Err(prefix_field(k, e)),
                }
            },
            _ => {
                proof {
                    lemma_canon_value_map_unfold(jv(*v));
                }
                Err(DecodeError::Invalid(k.to_owned()))
            },
        },
    }
}

/// Decodes the members of a name-to-integer-array mapping, in order.
pub(crate) fn core_map_members(members: &Vec<(String, JsonValue)>) -> (r: Result<
    Vec<(String, Vec<i64>)>,
    DecodeError,
>)
    ensures
        match r {
            Ok(xs) => canon_members(jv_pairs(members@), 0) == Ok::<
                Seq<(Seq<char>, JsonV)>,
                ErrV,
            >(map_ints_of(xs@)),
            Err(e) => canon_members(jv_pairs(members@), 0) == Err::<
                Seq<(Seq<char>, JsonV)>,
                ErrV,
            >(e.model()),
        },
{
    proof {
        reveal(crate::ast::canon::canon_value);
    }
    let ghost m = jv_pairs(members@);
    proof {
        lemma_jv_pairs(members@);
    }
    let n = members.len();
    let mut out: Vec<(String, Vec<i64>)> = Vec::new();
    let mut i: usize = 0;
    while i < n
        invariant
            i <= n,
            n == members@.len(),
            m == jv_pairs(members@),
            m.len() == n,
            forall|j: int| 0 <= j < n ==> m[j] == (members@[j].0@, jv(members@[j].1)),
            out@.len() == i,
            forall|j: int| 0 <= j < i ==> map_ints_of(out@)[j].0 == m[j].0 && canon_value(
                (#[trigger] m[j]).1,
                FieldKind::KArrI64,
            ) == Ok::<JsonV, ErrV>(map_ints_of(out@)[j].1),
        decreases n - i,
    {
        let child = &members[i].1;
        proof {
            reveal(crate::ast::canon::canon_value);
            assert(m[i as int].1 == jv(*child));
        }
        match child {
            JsonValue::Arr(elems) => {
                proof {
                    lemma_canon_value_arr_unfold(jv(*child), FieldKind::KArrI64, FieldKind::KI64);
                    assert(jv(*child) == JsonV::Arr(jv_seq(elems@)));
                }
                match core_arr_i64(elems) {
                    Ok(xs) => {
                        let key = members[i].0.clone();
                        out.push((key, xs));
                    },
                    Err(e) => {
                        proof {
                            lemma_canon_members_err(m, i as int);
                        }
                        return Err(prefix_field_string(&members[i].0, e));
                    },
                }
            },
            _ => {
                proof {
                    lemma_canon_value_arr_unfold(jv(*child), FieldKind::KArrI64, FieldKind::KI64);
                    lemma_canon_members_err(m, i as int);
                }
                return Err(prefix_field_string(&members[i].0, DecodeError::Invalid(String::new())));
            },
        }
        i += 1;
    }
    proof {
        lemma_canon_members_ok(m);
        let cs = canon_members(m, 0)->Ok_0;
        assert forall|j: int| 0 <= j < n implies cs[j] == map_ints_of(out@)[j] by {
            assert(canon_value(m[j].1, FieldKind::KArrI64) == Ok::<JsonV, ErrV>(
                map_ints_of(out@)[j].1,
            ));
        }
        assert(cs =~= map_ints_of(out@));
    }
    Ok(out)
}

/// Qualifies a failure with a member key held as a string.
pub(crate) fn prefix_field_string(k: &String, e: DecodeError) -> (r: DecodeError)
    ensures
        r.model() == prefix_err(k@, e.model()),
{
    prefix_field(k.as_str(), e)
}

/// If the members before `i` canonicalize and member `i` fails, the mapping
/// fails with member `i`'s failure, qualified by its name.
pub(crate) proof fn lemma_canon_members_err(m: Seq<(Seq<char>, JsonV)>, i: int)
    requires
        0 <= i < m.len(),
        forall|j: int| 0 <= j < i ==> canon_value((#[trigger] m[j]).1, FieldKind::KArrI64) is Ok,
        canon_value(m[i].1, FieldKind::KArrI64) is Err,
    ensures
        canon_members(m, 0) == Err::<Seq<(Seq<char>, JsonV)>, ErrV>(
            prefix_err(m[i].0, canon_value(m[i].1, FieldKind::KArrI64)->Err_0),
        ),
{
    lemma_canon_members_err_from(m, 0, i);
}

proof fn lemma_canon_members_err_from(m: Seq<(Seq<char>, JsonV)>, lo: int, i: int)
    requires
        0 <= lo <= i < m.len(),
        forall|j: int| lo <= j < i ==> canon_value((#[trigger] m[j]).1, FieldKind::KArrI64) is Ok,
        canon_value(m[i].1, FieldKind::KArrI64) is Err,
    ensures
        canon_members(m, lo) == Err::<Seq<(Seq<char>, JsonV)>, ErrV>(
            prefix_err(m[i].0, canon_value(m[i].1, FieldKind::KArrI64)->Err_0),
        ),
    decreases i - lo,
{
    reveal(crate::ast::canon::canon_value);
    if lo < i {
        lemma_canon_members_err_from(m, lo + 1, i);
    }
}

/// If every member canonicalizes, the mapping's canonical members are the
/// canonical values under the same names, in order.
pub(crate) proof fn lemma_canon_members_ok(m: Seq<(Seq<char>, JsonV)>)
    requires
        forall|j: int| 0 <= j < m.len() ==> canon_value(
            (#[trigger] m[j]).1,
            FieldKind::KArrI64,
        ) is Ok,
    ensures
        canon_members(m, 0) matches Ok(cs) && cs.len() == m.len() && (forall|j: int|
            0 <= j < m.len() ==> cs[j] == (
            (#[trigger] m[j]).0,
            canon_value(m[j].1, FieldKind::KArrI64)->Ok_0,
        )),
{
    lemma_canon_members_ok_from(m, 0);
}

proof fn lemma_canon_members_ok_from(m: Seq<(Seq<char>, JsonV)>, lo: int)
    requires
        0 <= lo <= m.len(),
        forall|j: int| lo <= j < m.len() ==> canon_value(
            (#[trigger] m[j]).1,
            FieldKind::KArrI64,
        ) is Ok,
    ensures
        canon_members(m, lo) matches Ok(cs) && cs.len() == m.len() - lo && (forall|j: int|
            lo <= j < m.len() ==> cs[j - lo] == (
            (#[trigger] m[j]).0,
            canon_value(m[j].1, FieldKind::KArrI64)->Ok_0,
        )),
    decreases m.len() - lo,
{
    reveal(crate::ast::canon::canon_value);
    if lo < m.len() {
        lemma_canon_members_ok_from(m, lo + 1);
    }
}

/// Reads an optional free-form JSON member, kept as it is.
pub(crate) fn g_opt_free(ps: &Vec<(String, JsonValue)>, k: &str) -> (r: Result<
    Option<JsonValue>,
    DecodeError,
>)
    ensures
        field_matches(
            r,
            ps@,
            k@,
            FieldKind::KOptFree,
            |x: Option<JsonValue>| Some(opt_free_of(x)),
        ),
{
    proof {
        reveal(crate::ast::canon::canon_field);
        reveal(crate::ast::canon::canon_value);
    }
    match obj_get(ps, k) {
        None => Ok(None),
        Some(v) => match v {
            JsonValue::Null => Ok(None),
            _ => {
                let c = clone_json(v);
                Ok(Some(c))
            },
        },
    }
}

/// Reads the discriminator member a record stores as its own field; it must
/// equal the record's tag.
pub(crate) fn g_tag(
    ps: &Vec<(String, JsonValue)>,
    k: &str,
    expected: &str,
    Ghost(rid): Ghost<RecId>,
) -> (r: Result<String, DecodeError>)
    requires
        rec_tag(rid) == expected@,
    ensures
        field_matches(r, ps@, k@, FieldKind::KTag(rid), |x: String| Some(JsonV::Str(x@))),
        r matches Ok(x) ==> x@ == rec_tag(rid),
{
    proof {
        reveal(crate::ast::canon::canon_field);
        reveal(crate::ast::canon::canon_value);
    }
    match obj_get(ps, k) {
        None => Err(DecodeError::Missing(k.to_owned())),
        Some(v) => match v {
            JsonValue::Str(s) => {
                if str_eq(s.as_str(), expected) {
                    Ok(s.clone())
                } else {
                    Err(DecodeError::Invalid(k.to_owned()))
                }
            },
            _ => Err(DecodeError::Invalid(k.to_owned())),
        },
    }
}

/// A family failure is "not an object" only when the node itself is not an
/// object.
pub(crate) proof fn lemma_canon_node_err_shape(v: JsonV, f: Fam)
    ensures
        (canon_node(v, f) matches Err(e) && e is NotAnObject) ==> !(v is Obj),
{
    match v {
        JsonV::Obj(ps) => {
            match jv_lookup(ps, crate::ast::canon::tag_key(f)) {
                None => {},
                Some(tv) => match tv {
                    JsonV::Str(tag) => match fam_rec(f, tag) {
                        None => {},
                        Some(rid) => {
                            lemma_canon_fields_err_shape(ps, schema(rid), 0);
                        },
                    },
                    _ => {},
                },
            }
        },
        _ => {},
    }
}

/// A documentation failure is never "not an object".
pub(crate) proof fn lemma_canon_doc_err_shape(v: JsonV)
    ensures
        canon_doc(v) matches Err(e) ==> !(e is NotAnObject),
{
    match v {
        JsonV::Obj(ps) => {
            lemma_canon_fields_err_shape(ps, schema(RecId::RStructuredDocumentation), 0);
        },
        _ => {},
    }
}

/// Decodes a documentation member: a bare string, or a structured record;
/// producers emit either shape for the same logical field.
pub fn decode_documentation(v: &JsonValue) -> (r: Result<Documentation, DecodeError>)
    ensures
        match r {
            Ok(d) => canon_doc(jv(*v)) == Ok::<JsonV, ErrV>(enc_doc(d)),
            Err(e) => canon_doc(jv(*v)) == Err::<JsonV, ErrV>(e.model()),
        },
    decreases jv(*v), 5int, 1int,
{
    match v {
        JsonValue::Str(s) => Ok(Documentation::String(s.clone())),
        JsonValue::Obj(ps) => {
            proof {
                assert(jv(*v) == JsonV::Obj(jv_pairs(ps@)));
                assert(jv(*v)->Obj_0 == jv_pairs(ps@));
                assert(decreases_to!(jv(*v) => jv(*v)->Obj_0));
            }
            match decode_structured_documentation(ps) {
                Ok(x) => Ok(Documentation::Structured(x)),
                Err(e) => Err(e),
            }
        },
        _ => Err(DecodeError::Invalid(String::new())),
    }
}

/// Reads a required nested common type member.
pub(crate) fn g_c_common_type(ps: &Vec<(String, JsonValue)>, k: &str) -> (r: Result<CommonType, DecodeError>)
    ensures
        field_matches(
            r,
            ps@,
            k@,
            FieldKind::KChild(Child::CRec(RecId::RCommonType)),
            |x: CommonType| Some(JsonV::Obj(enc_common_type(x))),
        ),
    decreases jv_pairs(ps@), 4int, 0int,
{
    proof {
        reveal(crate::ast::canon::canon_field);
        reveal(crate::ast::canon::canon_value);
    }
    match obj_get(ps, k) {
        None => Err(DecodeError::Missing(k.to_owned())),
        Some(v) => match v {
            JsonValue::Obj(cps) => {
                proof {
                    assert(jv(*v) == JsonV::Obj(jv_pairs(cps@)));
                    lemma_jv_pairs(ps@);
                    let i = choose|i: int| 0 <= i < ps@.len() && ps@[i].1 == *v;
                    assert(jv_pairs(ps@)[i] == (ps@[i].0@, jv(*v)));
                    assert(decreases_to!(jv_pairs(ps@) => jv_pairs(ps@)[i].1));
                    assert(jv(*v)->Obj_0 == jv_pairs(cps@));
                    assert(decreases_to!(jv(*v) => jv(*v)->Obj_0));
                }
                match decode_common_type(cps) {
                    Ok(x) => Ok(x),
                    Err(e) => {
                        proof {
                            lemma_canon_fields_err_shape(jv_pairs(cps@), schema(RecId::RCommonType), 0);
                        }
                        Err(prefix_field(k, e))
                    },
                }
            },
            _ => Err(DecodeError::Invalid(k.to_owned())),
        },
    }
}

/// Reads an optional doc member.
pub(crate) fn g_oc_doc(ps: &Vec<(String, JsonValue)>, k: &str) -> (r: Result<
    Option<Documentation>,
    DecodeError,
>)
    ensures
        field_matches(
            r,
            ps@,
            k@,
            FieldKind::KOptChild(Child::CDoc),
            |x: Option<Documentation>| Some(opt_doc_of(x)),
        ),
    decreases jv_pairs(ps@), 4int, 0int,
{
    proof {
        reveal(crate::ast::canon::canon_field);
        reveal(crate::ast::canon::canon_value);
    }
    match obj_get(ps, k) {
        None => Ok(None),
        Some(v) => match v {
            JsonValue::Null => {
                proof {
                    lemma_canon_value_opt_child_unfold(jv(*v), Child::CDoc);
                }
                Ok(None)
            },
            _ => {
                proof {
                    lemma_canon_value_opt_child_unfold(jv(*v), Child::CDoc);
                    lemma_jv_pairs(ps@);
                    let i = choose|i: int| 0 <= i < ps@.len() && ps@[i].1 == *v;
                    assert(jv_pairs(ps@)[i] == (ps@[i].0@, jv(*v)));
                    assert(decreases_to!(jv_pairs(ps@) => jv_pairs(ps@)[i].1));
                }
                match decode_documentation(v) {
                    Ok(x) => Ok(Some(x)),
                    Err(e) => {
                        proof {
                            lemma_canon_doc_err_shape(jv(*v));
                        }
                        Err(prefix_field(k, e))
                    },
                }
            },
        },
    }
}

/// Reads a required nested elementary type name member.
pub(crate) fn g_c_elementary_type_name(ps: &Vec<(String, JsonValue)>, k: &str) -> (r: Result<ElementaryTypeName, DecodeError>)
    ensures
        field_matches(
            r,
            ps@,
            k@,
            FieldKind::KChild(Child::CRec(RecId::RElementaryTypeName)),
            |x: ElementaryTypeName| Some(JsonV::Obj(enc_elementary_type_name(x))),
        ),
    decreases jv_pairs(ps@), 4int, 0int,
{
    proof {
        reveal(crate::ast::canon::canon_field);
        reveal(crate::ast::canon::canon_value);
    }
    match obj_get(ps, k) {
        None => Err(DecodeError::Missing(k.to_owned())),
        Some(v) => match v {
            JsonValue::Obj(cps) => {
                proof {
                    assert(jv(*v) == JsonV::Obj(jv_pairs(cps@)));
                    lemma_jv_pairs(ps@);
                    let i = choose|i: int| 0 <= i < ps@.len() && ps@[i].1 == *v;
                    assert(jv_pairs(ps@)[i] == (ps@[i].0@, jv(*v)));
                    assert(decreases_to!(jv_pairs(ps@) => jv_pairs(ps@)[i].1));
                    assert(jv(*v)->Obj_0 == jv_pairs(cps@));
                    assert(decreases_to!(jv(*v) => jv(*v)->Obj_0));
                }
                match decode_elementary_type_name(cps) {
                    Ok(x) => Ok(x),
                    Err(e) => {
                        proof {
                            lemma_canon_fields_err_shape(jv_pairs(cps@), schema(RecId::RElementaryTypeName), 0);
                        }
                        Err(prefix_field(k, e))
                    },
                }
            },
            _ => Err(DecodeError::Invalid(k.to_owned())),
        },
    }
}

/// Decodes the elements of an array of enum value members.
pub(crate) fn core_arr_enum_value(elems: &Vec<JsonValue>) -> (r: Result<Vec<EnumValue>, DecodeError>)
    ensures
        match r {
            Ok(xs) => canon_elems(jv_seq(elems@), 0, FieldKind::KChild(Child::CRec(RecId::REnumValue))) == Ok::<Seq<JsonV>, ErrV>(seq_enum_value_of(xs@)),
            Err(e) => canon_elems(jv_seq(elems@), 0, FieldKind::KChild(Child::CRec(RecId::REnumValue))) == Err::<Seq<JsonV>, ErrV>(e.model()),
        },
    decreases jv_seq(elems@), 6int, 0int,
{
    proof {
        reveal(crate::ast::canon::canon_value);
        reveal(crate::ast::canon::canon_field);
    }
    let ghost s = jv_seq(elems@);
    let ghost ek = FieldKind::KChild(Child::CRec(RecId::REnumValue));
    proof {
        lemma_jv_seq(elems@);
    }
    let n = elems.len();
    let mut out: Vec<EnumValue> = Vec::new();
    let mut i: usize = 0;
    while i < n
        invariant
            i <= n,
            n == elems@.len(),
            s == jv_seq(elems@),
            s.len() == n,
            forall|j: int| 0 <= j < n ==> s[j] == jv(elems@[j]),
            out@.len() == i,
            forall|j: int| 0 <= j < i ==> canon_value(#[trigger] s[j], ek) == Ok::<JsonV, ErrV>(
                JsonV::Obj(enc_enum_value(out@[j])),
            ),
            ek == FieldKind::KChild(Child::CRec(RecId::REnumValue)),
        decreases n - i,
    {
        let child = &elems[i];
        proof {
            assert(s[i as int] == jv(*child));
            assert(decreases_to!(s => s[i as int]));
        }
        match child {
            JsonValue::Obj(cps) => {
                proof {
                    assert(jv(*child) == JsonV::Obj(jv_pairs(cps@)));
                    assert(jv(*child)->Obj_0 == jv_pairs(cps@));
                    assert(decreases_to!(jv(*child) => jv(*child)->Obj_0));
                }
                match decode_enum_value(cps) {
                    Ok(x) => {
                        out.push(x);
                        proof {
                            lemma_canon_value_child_unfold(s[i as int], Child::CRec(RecId::REnumValue));
                            
                            assert(canon_value(s[i as int], ek) == Ok::<JsonV, ErrV>(JsonV::Obj(enc_enum_value(x))));
                        }
                    },
                    Err(e) => {
                        proof {
                            lemma_canon_value_child_unfold(s[i as int], Child::CRec(RecId::REnumValue));
                            
                            lemma_canon_fields_err_shape(jv_pairs(cps@), schema(RecId::REnumValue), 0);
                            lemma_canon_elems_err(s, i as int, ek);
                            assert(prefix_err(
                                idx_path(i as int),
                                canon_value(s[i as int], ek)->Err_0,
                            ) == prefix_err(idx_path(i as int), e.model()));
                        }
                        return Err(prefix_index(i, e));
                    },
                }
            },
            _ => {
                proof {
                    lemma_canon_value_child_unfold(s[i as int], Child::CRec(RecId::REnumValue));
                    
                    lemma_canon_elems_err(s, i as int, ek);
                }
                return Err(prefix_index(i, DecodeError::Invalid(String::new())));
            },
        }
        i += 1;
    }
    proof {
        lemma_canon_elems_ok(s, ek);
        let cs = canon_elems(s, 0, ek)->Ok_0;
        assert forall|j: int| 0 <= j < n implies cs[j] == seq_enum_value_of(out@)[j] by {
            assert(canon_value(s[j], ek) == Ok::<JsonV, ErrV>(JsonV::Obj(enc_enum_value(out@[j]))));
        }
        assert(cs =~= seq_enum_value_of(out@));
    }
    Ok(out)
}

/// Reads a required array-of-enum value member.
pub(crate) fn g_ac_enum_value(ps: &Vec<(String, JsonValue)>, k: &str) -> (r: Result<Vec<EnumValue>, DecodeError>)
    ensures
        field_matches(r, ps@, k@, FieldKind::KArrChild(Child::CRec(RecId::REnumValue)), |x: Vec<EnumValue>| Some(JsonV::Arr(seq_enum_value_of(x@)))),
    decreases jv_pairs(ps@), 4int, 0int,
{
    proof {
        reveal(crate::ast::canon::canon_field);
        reveal(crate::ast::canon::canon_value);
    }
    match obj_get(ps, k) {
        None => Err(DecodeError::Missing(k.to_owned())),
        Some(v) => match v {
            JsonValue::Arr(elems) => {
                proof {
                    lemma_canon_value_arr_unfold(jv(*v), FieldKind::KArrChild(Child::CRec(RecId::REnumValue)), FieldKind::KChild(Child::CRec(RecId::REnumValue)));
                    assert(jv(*v) == JsonV::Arr(jv_seq(elems@)));
                    lemma_jv_pairs(ps@);
                    let i = choose|i: int| 0 <= i < ps@.len() && ps@[i].1 == *v;
                    assert(jv_pairs(ps@)[i] == (ps@[i].0@, jv(*v)));
                    assert(decreases_to!(jv_pairs(ps@) => jv_pairs(ps@)[i].1));
                    assert(jv(*v)->Arr_0 == jv_seq(elems@));
                    assert(decreases_to!(jv(*v) => jv(*v)->Arr_0));
                }
                match core_arr_enum_value(elems) {
                    Ok(xs) => Ok(xs),
                    Err(e) => Err(prefix_field(k, e)),
                }
            },
            _ => {
                proof {
                    lemma_canon_value_arr_unfold(jv(*v), FieldKind::KArrChild(Child::CRec(RecId::REnumValue)), FieldKind::KChild(Child::CRec(RecId::REnumValue)));
                }
                Err(DecodeError::Invalid(k.to_owned()))
            },
        },
    }
}

/// Reads a required nested identifier member.
pub(crate) fn g_c_identifier(ps: &Vec<(String, JsonValue)>, k: &str) -> (r: Result<Identifier, DecodeError>)
    ensures
        field_matches(
            r,
            ps@,
            k@,
            FieldKind::KChild(Child::CRec(RecId::RIdentifier)),
            |x: Identifier| Some(JsonV::Obj(enc_identifier(x))),
        ),
    decreases jv_pairs(ps@), 4int, 0int,
{
    proof {
        reveal(crate::ast::canon::canon_field);
        reveal(crate::ast::canon::canon_value);
    }
    match obj_get(ps, k) {
        None => Err(DecodeError::Missing(k.to_owned())),
        Some(v) => match v {
            JsonValue::Obj(cps) => {
                proof {
                    assert(jv(*v) == JsonV::Obj(jv_pairs(cps@)));
                    lemma_jv_pairs(ps@);
                    let i = choose|i: int| 0 <= i < ps@.len() && ps@[i].1 == *v;
                    assert(jv_pairs(ps@)[i] == (ps@[i].0@, jv(*v)));
                    assert(decreases_to!(jv_pairs(ps@) => jv_pairs(ps@)[i].1));
                    assert(jv(*v)->Obj_0 == jv_pairs(cps@));
                    assert(decreases_to!(jv(*v) => jv(*v)->Obj_0));
                }
                match decode_identifier(cps) {
                    Ok(x) => Ok(x),
                    Err(e) => {
                        proof {
                            lemma_canon_fields_err_shape(jv_pairs(cps@), schema(RecId::RIdentifier), 0);
                        }
                        Err(prefix_field(k, e))
                    },
                }
            },
            _ => Err(DecodeError::Invalid(k.to_owned())),
        },
    }
}

/// Decodes the elements of an array of identifier path members.
pub(crate) fn core_arr_identifier_path(elems: &Vec<JsonValue>) -> (r: Result<Vec<IdentifierPath>, DecodeError>)
    ensures
        match r {
            Ok(xs) => canon_elems(jv_seq(elems@), 0, FieldKind::KChild(Child::CRec(RecId::RIdentifierPath))) == Ok::<Seq<JsonV>, ErrV>(seq_identifier_path_of(xs@)),
            Err(e) => canon_elems(jv_seq(elems@), 0, FieldKind::KChild(Child::CRec(RecId::RIdentifierPath))) == Err::<Seq<JsonV>, ErrV>(e.model()),
        },
    decreases jv_seq(elems@), 6int, 0int,
{
    proof {
        reveal(crate::ast::canon::canon_value);
        reveal(crate::ast::canon::canon_field);
    }
    let ghost s = jv_seq(elems@);
    let ghost ek = FieldKind::KChild(Child::CRec(RecId::RIdentifierPath));
    proof {
        lemma_jv_seq(elems@);
    }
    let n = elems.len();
    let mut out: Vec<IdentifierPath> = Vec::new();
    let mut i: usize = 0;
    while i < n
        invariant
            i <= n,
            n == elems@.len(),
            s == jv_seq(elems@),
            s.len() == n,
            forall|j: int| 0 <= j < n ==> s[j] == jv(elems@[j]),
            out@.len() == i,
            forall|j: int| 0 <= j < i ==> canon_value(#[trigger] s[j], ek) == Ok::<JsonV, ErrV>(
                JsonV::Obj(enc_identifier_path(out@[j])),
            ),
            ek == FieldKind::KChild(Child::CRec(RecId::RIdentifierPath)),
        decreases n - i,
    {
        let child = &elems[i];
        proof {
            assert(s[i as int] == jv(*child));
            assert(decreases_to!(s => s[i as int]));
        }
        match child {
            JsonValue::Obj(cps) => {
                proof {
                    assert(jv(*child) == JsonV::Obj(jv_pairs(cps@)));
                    assert(jv(*child)->Obj_0 == jv_pairs(cps@));
                    assert(decreases_to!(jv(*child) => jv(*child)->Obj_0));
                }
                match decode_identifier_path(cps) {
                    Ok(x) => {
                        out.push(x);
                        proof {
                            lemma_canon_value_child_unfold(s[i as int], Child::CRec(RecId::RIdentifierPath));
                            
                            assert(canon_value(s[i as int], ek) == Ok::<JsonV, ErrV>(JsonV::Obj(enc_identifier_path(x))));
                        }
                    },
                    Err(e) => {
                        proof {
                            lemma_canon_value_child_unfold(s[i as int], Child::CRec(RecId::RIdentifierPath));
                            
                            lemma_canon_fields_err_shape(jv_pairs(cps@), schema(RecId::RIdentifierPath), 0);
                            lemma_canon_elems_err(s, i as int, ek);
                            assert(prefix_err(
                                idx_path(i as int),
                                canon_value(s[i as int], ek)->Err_0,
                            ) == prefix_err(idx_path(i as int), e.model()));
                        }
                        return Err(prefix_index(i, e));
                    },
                }
            },
            _ => {
                proof {
                    lemma_canon_value_child_unfold(s[i as int], Child::CRec(RecId::RIdentifierPath));
                    
                    lemma_canon_elems_err(s, i as int, ek);
                }
                return Err(prefix_index(i, DecodeError::Invalid(String::new())));
            },
        }
        i += 1;
    }
    proof {
        lemma_canon_elems_ok(s, ek);
        let cs = canon_elems(s, 0, ek)->Ok_0;
        assert forall|j: int| 0 <= j < n implies cs[j] == seq_identifier_path_of(out@)[j] by {
            assert(canon_value(s[j], ek) == Ok::<JsonV, ErrV>(JsonV::Obj(enc_identifier_path(out@[j]))));
        }
        assert(cs =~= seq_identifier_path_of(out@));
    }
    Ok(out)
}

/// Reads a required nested identifier path member.
pub(crate) fn g_c_identifier_path(ps: &Vec<(String, JsonValue)>, k: &str) -> (r: Result<IdentifierPath, DecodeError>)
    ensures
        field_matches(
            r,
            ps@,
            k@,
            FieldKind::KChild(Child::CRec(RecId::RIdentifierPath)),
            |x: IdentifierPath| Some(JsonV::Obj(enc_identifier_path(x))),
        ),
    decreases jv_pairs(ps@), 4int, 0int,
{
    proof {
        reveal(crate::ast::canon::canon_field);
        reveal(crate::ast::canon::canon_value);
    }
    match obj_get(ps, k) {
        None => Err(DecodeError::Missing(k.to_owned())),
        Some(v) => match v {
            JsonValue::Obj(cps) => {
                proof {
                    assert(jv(*v) == JsonV::Obj(jv_pairs(cps@)));
                    lemma_jv_pairs(ps@);
                    let i = choose|i: int| 0 <= i < ps@.len() && ps@[i].1 == *v;
                    assert(jv_pairs(ps@)[i] == (ps@[i].0@, jv(*v)));
                    assert(decreases_to!(jv_pairs(ps@) => jv_pairs(ps@)[i].1));
                    assert(jv(*v)->Obj_0 == jv_pairs(cps@));
                    assert(decreases_to!(jv(*v) => jv(*v)->Obj_0));
                }
                match decode_identifier_path(cps) {
                    Ok(x) => Ok(x),
                    Err(e) => {
                        proof {
                            lemma_canon_fields_err_shape(jv_pairs(cps@), schema(RecId::RIdentifierPath), 0);
                        }
                        Err(prefix_field(k, e))
                    },
                }
            },
            _ => Err(DecodeError::Invalid(k.to_owned())),
        },
    }
}

/// Reads an array-of-identifier path member that is empty when absent.
pub(crate) fn g_dac_identifier_path(ps: &Vec<(String, JsonValue)>, k: &str) -> (r: Result<Vec<IdentifierPath>, DecodeError>)
    ensures
        field_matches(r, ps@, k@, FieldKind::KDefArrChild(Child::CRec(RecId::RIdentifierPath)), |x: Vec<IdentifierPath>| Some(JsonV::Arr(seq_identifier_path_of(x@)))),
    decreases jv_pairs(ps@), 4int, 0int,
{
    proof {
        reveal(crate::ast::canon::canon_field);
        reveal(crate::ast::canon::canon_value);
    }
    match obj_get(ps, k) {
        None => {
            let out: Vec<IdentifierPath> = Vec::new();
            proof {
                assert(seq_identifier_path_of(out@) =~= Seq::<JsonV>::empty());
            }
            Ok(out)
        },
        Some(v) => match v {
            JsonValue::Arr(elems) => {
                proof {
                    lemma_canon_value_arr_unfold(jv(*v), FieldKind::KDefArrChild(Child::CRec(RecId::RIdentifierPath)), FieldKind::KChild(Child::CRec(RecId::RIdentifierPath)));
                    assert(jv(*v) == JsonV::Arr(jv_seq(elems@)));
                    lemma_jv_pairs(ps@);
                    let i = choose|i: int| 0 <= i < ps@.len() && ps@[i].1 == *v;
                    assert(jv_pairs(ps@)[i] == (ps@[i].0@, jv(*v)));
                    assert(decreases_to!(jv_pairs(ps@) => jv_pairs(ps@)[i].1));
                    assert(jv(*v)->Arr_0 == jv_seq(elems@));
                    assert(decreases_to!(jv(*v) => jv(*v)->Arr_0));
                }
                match core_arr_identifier_path(elems) {
                    Ok(xs) => Ok(xs),
                    Err(e) => Err(prefix_field(k, e)),
                }
            },
            _ => {
                proof {
                    lemma_canon_value_arr_unfold(jv(*v), FieldKind::KDefArrChild(Child::CRec(RecId::RIdentifierPath)), FieldKind::KChild(Child::CRec(RecId::RIdentifierPath)));
                }
                Err(DecodeError::Invalid(k.to_owned()))
            },
        },
    }
}

/// Reads an optional identifier path member.
pub(crate) fn g_oc_identifier_path(ps: &Vec<(String, JsonValue)>, k: &str) -> (r: Result<
    Option<IdentifierPath>,
    DecodeError,
>)
    ensures
        field_matches(
            r,
            ps@,
            k@,
            FieldKind::KOptChild(Child::CRec(RecId::RIdentifierPath)),
            |x: Option<IdentifierPath>| Some(opt_identifier_path_of(x)),
        ),
    decreases jv_pairs(ps@), 4int, 0int,
{
    proof {
        reveal(crate::ast::canon::canon_field);
        reveal(crate::ast::canon::canon_value);
    }
    match obj_get(ps, k) {
        None => Ok(None),
        Some(v) => match v {
            JsonValue::Null => {
                proof {
                    lemma_canon_value_opt_child_unfold(jv(*v), Child::CRec(RecId::RIdentifierPath));
                }
                Ok(None)
            },
            JsonValue::Obj(cps) => {
                proof {
                    lemma_canon_value_opt_child_unfold(jv(*v), Child::CRec(RecId::RIdentifierPath));
                    assert(jv(*v) == JsonV::Obj(jv_pairs(cps@)));
                    lemma_jv_pairs(ps@);
                    let i = choose|i: int| 0 <= i < ps@.len() && ps@[i].1 == *v;
                    assert(jv_pairs(ps@)[i] == (ps@[i].0@, jv(*v)));
                    assert(decreases_to!(jv_pairs(ps@) => jv_pairs(ps@)[i].1));
                    assert(jv(*v)->Obj_0 == jv_pairs(cps@));
                    assert(decreases_to!(jv(*v) => jv(*v)->Obj_0));
                }
                match decode_identifier_path(cps) {
                    Ok(x) => Ok(Some(x)),
                    Err(e) => {
                        proof {
                            lemma_canon_fields_err_shape(jv_pairs(cps@), schema(RecId::RIdentifierPath), 0);
                        }
                        Err(prefix_field(k, e))
                    },
                }
            },
            _ => {
                proof {
                    lemma_canon_value_opt_child_unfold(jv(*v), Child::CRec(RecId::RIdentifierPath));
                }
                Err(DecodeError::Invalid(k.to_owned()))
            },
        },
    }
}

/// Reads an optional override specifier member.
pub(crate) fn g_oc_override_specifier(ps: &Vec<(String, JsonValue)>, k: &str) -> (r: Result<
    Option<OverrideSpecifier>,
    DecodeError,
>)
    ensures
        field_matches(
            r,
            ps@,
            k@,
            FieldKind::KOptChild(Child::CRec(RecId::ROverrideSpecifier)),
            |x: Option<OverrideSpecifier>| Some(opt_override_specifier_of(x)),
        ),
    decreases jv_pairs(ps@), 4int, 0int,
{
    proof {
        reveal(crate::ast::canon::canon_field);
        reveal(crate::ast::canon::canon_value);
    }
    match obj_get(ps, k) {
        None => Ok(None),
        Some(v) => match v {
            JsonValue::Null => {
                proof {
                    lemma_canon_value_opt_child_unfold(jv(*v), Child::CRec(RecId::ROverrideSpecifier));
                }
                Ok(None)
            },
            JsonValue::Obj(cps) => {
                proof {
                    lemma_canon_value_opt_child_unfold(jv(*v), Child::CRec(RecId::ROverrideSpecifier));
                    assert(jv(*v) == JsonV::Obj(jv_pairs(cps@)));
                    lemma_jv_pairs(ps@);
                    let i = choose|i: int| 0 <= i < ps@.len() && ps@[i].1 == *v;
                    assert(jv_pairs(ps@)[i] == (ps@[i].0@, jv(*v)));
                    assert(decreases_to!(jv_pairs(ps@) => jv_pairs(ps@)[i].1));
                    assert(jv(*v)->Obj_0 == jv_pairs(cps@));
                    assert(decreases_to!(jv(*v) => jv(*v)->Obj_0));
                }
                match decode_override_specifier(cps) {
                    Ok(x) => Ok(Some(x)),
                    Err(e) => {
                        proof {
                            lemma_canon_fields_err_shape(jv_pairs(cps@), schema(RecId::ROverrideSpecifier), 0);
                        }
                        Err(prefix_field(k, e))
                    },
                }
            },
            _ => {
                proof {
                    lemma_canon_value_opt_child_unfold(jv(*v), Child::CRec(RecId::ROverrideSpecifier));
                }
                Err(DecodeError::Invalid(k.to_owned()))
            },
        },
    }
}

/// Decodes the elements of an array of symbol alias members.
pub(crate) fn core_arr_symbol_alias(elems: &Vec<JsonValue>) -> (r: Result<Vec<SymbolAlias>, DecodeError>)
    ensures
        match r {
            Ok(xs) => canon_elems(jv_seq(elems@), 0, FieldKind::KChild(Child::CRec(RecId::RSymbolAlias))) == Ok::<Seq<JsonV>, ErrV>(seq_symbol_alias_of(xs@)),
            Err(e) => canon_elems(jv_seq(elems@), 0, FieldKind::KChild(Child::CRec(RecId::RSymbolAlias))) == Err::<Seq<JsonV>, ErrV>(e.model()),
        },
    decreases jv_seq(elems@), 6int, 0int,
{
    proof {
        reveal(crate::ast::canon::canon_value);
        reveal(crate::ast::canon::canon_field);
    }
    let ghost s = jv_seq(elems@);
    let ghost ek = FieldKind::KChild(Child::CRec(RecId::RSymbolAlias));
    proof {
        lemma_jv_seq(elems@);
    }
    let n = elems.len();
    let mut out: Vec<SymbolAlias> = Vec::new();
    let mut i: usize = 0;
    while i < n
        invariant
            i <= n,
            n == elems@.len(),
            s == jv_seq(elems@),
            s.len() == n,
            forall|j: int| 0 <= j < n ==> s[j] == jv(elems@[j]),
            out@.len() == i,
            forall|j: int| 0 <= j < i ==> canon_value(#[trigger] s[j], ek) == Ok::<JsonV, ErrV>(
                JsonV::Obj(enc_symbol_alias(out@[j])),
            ),
            ek == FieldKind::KChild(Child::CRec(RecId::RSymbolAlias)),
        decreases n - i,
    {
        let child = &elems[i];
        proof {
            assert(s[i as int] == jv(*child));
            assert(decreases_to!(s => s[i as int]));
        }
        match child {
            JsonValue::Obj(cps) => {
                proof {
                    assert(jv(*child) == JsonV::Obj(jv_pairs(cps@)));
                    assert(jv(*child)->Obj_0 == jv_pairs(cps@));
                    assert(decreases_to!(jv(*child) => jv(*child)->Obj_0));
                }
                match decode_symbol_alias(cps) {
                    Ok(x) => {
                        out.push(x);
                        proof {
                            lemma_canon_value_child_unfold(s[i as int], Child::CRec(RecId::RSymbolAlias));
                            
                            assert(canon_value(s[i as int], ek) == Ok::<JsonV, ErrV>(JsonV::Obj(enc_symbol_alias(x))));
                        }
                    },
                    Err(e) => {
                        proof {
                            lemma_canon_value_child_unfold(s[i as int], Child::CRec(RecId::RSymbolAlias));
                            
                            lemma_canon_fields_err_shape(jv_pairs(cps@), schema(RecId::RSymbolAlias), 0);
                            lemma_canon_elems_err(s, i as int, ek);
                            assert(prefix_err(
                                idx_path(i as int),
                                canon_value(s[i as int], ek)->Err_0,
                            ) == prefix_err(idx_path(i as int), e.model()));
                        }
                        return Err(prefix_index(i, e));
                    },
                }
            },
            _ => {
                proof {
                    lemma_canon_value_child_unfold(s[i as int], Child::CRec(RecId::RSymbolAlias));
                    
                    lemma_canon_elems_err(s, i as int, ek);
                }
                return Err(prefix_index(i, DecodeError::Invalid(String::new())));
            },
        }
        i += 1;
    }
    proof {
        lemma_canon_elems_ok(s, ek);
        let cs = canon_elems(s, 0, ek)->Ok_0;
        assert forall|j: int| 0 <= j < n implies cs[j] == seq_symbol_alias_of(out@)[j] by {
            assert(canon_value(s[j], ek) == Ok::<JsonV, ErrV>(JsonV::Obj(enc_symbol_alias(out@[j]))));
        }
        assert(cs =~= seq_symbol_alias_of(out@));
    }
    Ok(out)
}

/// Reads an array-of-symbol alias member that is empty when absent.
pub(crate) fn g_dac_symbol_alias(ps: &Vec<(String, JsonValue)>, k: &str) -> (r: Result<Vec<SymbolAlias>, DecodeError>)
    ensures
        field_matches(r, ps@, k@, FieldKind::KDefArrChild(Child::CRec(RecId::RSymbolAlias)), |x: Vec<SymbolAlias>| Some(JsonV::Arr(seq_symbol_alias_of(x@)))),
    decreases jv_pairs(ps@), 4int, 0int,
{
    proof {
        reveal(crate::ast::canon::canon_field);
        reveal(crate::ast::canon::canon_value);
    }
    match obj_get(ps, k) {
        None => {
            let out: Vec<SymbolAlias> = Vec::new();
            proof {
                assert(seq_symbol_alias_of(out@) =~= Seq::<JsonV>::empty());
            }
            Ok(out)
        },
        Some(v) => match v {
            JsonValue::Arr(elems) => {
                proof {
                    lemma_canon_value_arr_unfold(jv(*v), FieldKind::KDefArrChild(Child::CRec(RecId::RSymbolAlias)), FieldKind::KChild(Child::CRec(RecId::RSymbolAlias)));
                    assert(jv(*v) == JsonV::Arr(jv_seq(elems@)));
                    lemma_jv_pairs(ps@);
                    let i = choose|i: int| 0 <= i < ps@.len() && ps@[i].1 == *v;
                    assert(jv_pairs(ps@)[i] == (ps@[i].0@, jv(*v)));
                    assert(decreases_to!(jv_pairs(ps@) => jv_pairs(ps@)[i].1));
                    assert(jv(*v)->Arr_0 == jv_seq(elems@));
                    assert(decreases_to!(jv(*v) => jv(*v)->Arr_0));
                }
                match core_arr_symbol_alias(elems) {
                    Ok(xs) => Ok(xs),
                    Err(e) => Err(prefix_field(k, e)),
                }
            },
            _ => {
                proof {
                    lemma_canon_value_arr_unfold(jv(*v), FieldKind::KDefArrChild(Child::CRec(RecId::RSymbolAlias)), FieldKind::KChild(Child::CRec(RecId::RSymbolAlias)));
                }
                Err(DecodeError::Invalid(k.to_owned()))
            },
        },
    }
}

/// Decodes the elements of an array of documentation custom members.
pub(crate) fn core_arr_documentation_custom(elems: &Vec<JsonValue>) -> (r: Result<Vec<StructuredDocumentationCustom>, DecodeError>)
    ensures
        match r {
            Ok(xs) => canon_elems(jv_seq(elems@), 0, FieldKind::KChild(Child::CRec(RecId::RStructuredDocumentationCustom))) == Ok::<Seq<JsonV>, ErrV>(seq_documentation_custom_of(xs@)),
            Err(e) => canon_elems(jv_seq(elems@), 0, FieldKind::KChild(Child::CRec(RecId::RStructuredDocumentationCustom))) == Err::<Seq<JsonV>, ErrV>(e.model()),
        },
    decreases jv_seq(elems@), 6int, 0int,
{
    proof {
        reveal(crate::ast::canon::canon_value);
        reveal(crate::ast::canon::canon_field);
    }
    let ghost s = jv_seq(elems@);
    let ghost ek = FieldKind::KChild(Child::CRec(RecId::RStructuredDocumentationCustom));
    proof {
        lemma_jv_seq(elems@);
    }
    let n = elems.len();
    let mut out: Vec<StructuredDocumentationCustom> = Vec::new();
    let mut i: usize = 0;
    while i < n
        invariant
            i <= n,
            n == elems@.len(),
            s == jv_seq(elems@),
            s.len() == n,
            forall|j: int| 0 <= j < n ==> s[j] == jv(elems@[j]),
            out@.len() == i,
            forall|j: int| 0 <= j < i ==> canon_value(#[trigger] s[j], ek) == Ok::<JsonV, ErrV>(
                JsonV::Obj(enc_documentation_custom(out@[j])),
            ),
            ek == FieldKind::KChild(Child::CRec(RecId::RStructuredDocumentationCustom)),
        decreases n - i,
    {
        let child = &elems[i];
        proof {
            assert(s[i as int] == jv(*child));
            assert(decreases_to!(s => s[i as int]));
        }
        match child {
            JsonValue::Obj(cps) => {
                proof {
                    assert(jv(*child) == JsonV::Obj(jv_pairs(cps@)));
                    assert(jv(*child)->Obj_0 == jv_pairs(cps@));
                    assert(decreases_to!(jv(*child) => jv(*child)->Obj_0));
                }
                match decode_documentation_custom(cps) {
                    Ok(x) => {
                        out.push(x);
                        proof {
                            lemma_canon_value_child_unfold(s[i as int], Child::CRec(RecId::RStructuredDocumentationCustom));
                            
                            assert(canon_value(s[i as int], ek) == Ok::<JsonV, ErrV>(JsonV::Obj(enc_documentation_custom(x))));
                        }
                    },
                    Err(e) => {
                        proof {
                            lemma_canon_value_child_unfold(s[i as int], Child::CRec(RecId::RStructuredDocumentationCustom));
                            
                            lemma_canon_fields_err_shape(jv_pairs(cps@), schema(RecId::RStructuredDocumentationCustom), 0);
                            lemma_canon_elems_err(s, i as int, ek);
                            assert(prefix_err(
                                idx_path(i as int),
                                canon_value(s[i as int], ek)->Err_0,
                            ) == prefix_err(idx_path(i as int), e.model()));
                        }
                        return Err(prefix_index(i, e));
                    },
                }
            },
            _ => {
                proof {
                    lemma_canon_value_child_unfold(s[i as int], Child::CRec(RecId::RStructuredDocumentationCustom));
                    
                    lemma_canon_elems_err(s, i as int, ek);
                }
                return Err(prefix_index(i, DecodeError::Invalid(String::new())));
            },
        }
        i += 1;
    }
    proof {
        lemma_canon_elems_ok(s, ek);
        let cs = canon_elems(s, 0, ek)->Ok_0;
        assert forall|j: int| 0 <= j < n implies cs[j] == seq_documentation_custom_of(out@)[j] by {
            assert(canon_value(s[j], ek) == Ok::<JsonV, ErrV>(JsonV::Obj(enc_documentation_custom(out@[j]))));
        }
        assert(cs =~= seq_documentation_custom_of(out@));
    }
    Ok(out)
}

/// Reads an array-of-documentation custom member that is empty when absent.
pub(crate) fn g_dac_documentation_custom(ps: &Vec<(String, JsonValue)>, k: &str) -> (r: Result<Vec<StructuredDocumentationCustom>, DecodeError>)
    ensures
        field_matches(r, ps@, k@, FieldKind::KDefArrChild(Child::CRec(RecId::RStructuredDocumentationCustom)), |x: Vec<StructuredDocumentationCustom>| Some(JsonV::Arr(seq_documentation_custom_of(x@)))),
    decreases jv_pairs(ps@), 4int, 0int,
{
    proof {
        reveal(crate::ast::canon::canon_field);
        reveal(crate::ast::canon::canon_value);
    }
    match obj_get(ps, k) {
        None => {
            let out: Vec<StructuredDocumentationCustom> = Vec::new();
            proof {
                assert(seq_documentation_custom_of(out@) =~= Seq::<JsonV>::empty());
            }
            Ok(out)
        },
        Some(v) => match v {
            JsonValue::Arr(elems) => {
                proof {
                    lemma_canon_value_arr_unfold(jv(*v), FieldKind::KDefArrChild(Child::CRec(RecId::RStructuredDocumentationCustom)), FieldKind::KChild(Child::CRec(RecId::RStructuredDocumentationCustom)));
                    assert(jv(*v) == JsonV::Arr(jv_seq(elems@)));
                    lemma_jv_pairs(ps@);
                    let i = choose|i: int| 0 <= i < ps@.len() && ps@[i].1 == *v;
                    assert(jv_pairs(ps@)[i] == (ps@[i].0@, jv(*v)));
                    assert(decreases_to!(jv_pairs(ps@) => jv_pairs(ps@)[i].1));
                    assert(jv(*v)->Arr_0 == jv_seq(elems@));
                    assert(decreases_to!(jv(*v) => jv(*v)->Arr_0));
                }
                match core_arr_documentation_custom(elems) {
                    Ok(xs) => Ok(xs),
                    Err(e) => Err(prefix_field(k, e)),
                }
            },
            _ => {
                proof {
                    lemma_canon_value_arr_unfold(jv(*v), FieldKind::KDefArrChild(Child::CRec(RecId::RStructuredDocumentationCustom)), FieldKind::KChild(Child::CRec(RecId::RStructuredDocumentationCustom)));
                }
                Err(DecodeError::Invalid(k.to_owned()))
            },
        },
    }
}

/// Decodes the elements of an array of documentation parameter members.
pub(crate) fn core_arr_documentation_parameter(elems: &Vec<JsonValue>) -> (r: Result<Vec<StructuredDocumentationParameter>, DecodeError>)
    ensures
        match r {
            Ok(xs) => canon_elems(jv_seq(elems@), 0, FieldKind::KChild(Child::CRec(RecId::RStructuredDocumentationParameter))) == Ok::<Seq<JsonV>, ErrV>(seq_documentation_parameter_of(xs@)),
            Err(e) => canon_elems(jv_seq(elems@), 0, FieldKind::KChild(Child::CRec(RecId::RStructuredDocumentationParameter))) == Err::<Seq<JsonV>, ErrV>(e.model()),
        },
    decreases jv_seq(elems@), 6int, 0int,
{
    proof {
        reveal(crate::ast::canon::canon_value);
        reveal(crate::ast::canon::canon_field);
    }
    let ghost s = jv_seq(elems@);
    let ghost ek = FieldKind::KChild(Child::CRec(RecId::RStructuredDocumentationParameter));
    proof {
        lemma_jv_seq(elems@);
    }
    let n = elems.len();
    let mut out: Vec<StructuredDocumentationParameter> = Vec::new();
    let mut i: usize = 0;
    while i < n
        invariant
            i <= n,
            n == elems@.len(),
            s == jv_seq(elems@),
            s.len() == n,
            forall|j: int| 0 <= j < n ==> s[j] == jv(elems@[j]),
            out@.len() == i,
            forall|j: int| 0 <= j < i ==> canon_value(#[trigger] s[j], ek) == Ok::<JsonV, ErrV>(
                JsonV::Obj(enc_documentation_parameter(out@[j])),
            ),
            ek == FieldKind::KChild(Child::CRec(RecId::RStructuredDocumentationParameter)),
        decreases n - i,
    {
        let child = &elems[i];
        proof {
            assert(s[i as int] == jv(*child));
            assert(decreases_to!(s => s[i as int]));
        }
        match child {
            JsonValue::Obj(cps) => {
                proof {
                    assert(jv(*child) == JsonV::Obj(jv_pairs(cps@)));
                    assert(jv(*child)->Obj_0 == jv_pairs(cps@));
                    assert(decreases_to!(jv(*child) => jv(*child)->Obj_0));
                }
                match decode_documentation_parameter(cps) {
                    Ok(x) => {
                        out.push(x);
                        proof {
                            lemma_canon_value_child_unfold(s[i as int], Child::CRec(RecId::RStructuredDocumentationParameter));
                            
                            assert(canon_value(s[i as int], ek) == Ok::<JsonV, ErrV>(JsonV::Obj(enc_documentation_parameter(x))));
                        }
                    },
                    Err(e) => {
                        proof {
                            lemma_canon_value_child_unfold(s[i as int], Child::CRec(RecId::RStructuredDocumentationParameter));
                            
                            lemma_canon_fields_err_shape(jv_pairs(cps@), schema(RecId::RStructuredDocumentationParameter), 0);
                            lemma_canon_elems_err(s, i as int, ek);
                            assert(prefix_err(
                                idx_path(i as int),
                                canon_value(s[i as int], ek)->Err_0,
                            ) == prefix_err(idx_path(i as int), e.model()));
                        }
                        return Err(prefix_index(i, e));
                    },
                }
            },
            _ => {
                proof {
                    lemma_canon_value_child_unfold(s[i as int], Child::CRec(RecId::RStructuredDocumentationParameter));
                    
                    lemma_canon_elems_err(s, i as int, ek);
                }
                return Err(prefix_index(i, DecodeError::Invalid(String::new())));
            },
        }
        i += 1;
    }
    proof {
        lemma_canon_elems_ok(s, ek);
        let cs = canon_elems(s, 0, ek)->Ok_0;
        assert forall|j: int| 0 <= j < n implies cs[j] == seq_documentation_parameter_of(out@)[j] by {
            assert(canon_value(s[j], ek) == Ok::<JsonV, ErrV>(JsonV::Obj(enc_documentation_parameter(out@[j]))));
        }
        assert(cs =~= seq_documentation_parameter_of(out@));
    }
    Ok(out)
}

/// Reads an array-of-documentation parameter member that is empty when absent.
pub(crate) fn g_dac_documentation_parameter(ps: &Vec<(String, JsonValue)>, k: &str) -> (r: Result<Vec<StructuredDocumentationParameter>, DecodeError>)
    ensures
        field_matches(r, ps@, k@, FieldKind::KDefArrChild(Child::CRec(RecId::RStructuredDocumentationParameter)), |x: Vec<StructuredDocumentationParameter>| Some(JsonV::Arr(seq_documentation_parameter_of(x@)))),
    decreases jv_pairs(ps@), 4int, 0int,
{
    proof {
        reveal(crate::ast::canon::canon_field);
        reveal(crate::ast::canon::canon_value);
    }
    match obj_get(ps, k) {
        None => {
            let out: Vec<StructuredDocumentationParameter> = Vec::new();
            proof {
                assert(seq_documentation_parameter_of(out@) =~= Seq::<JsonV>::empty());
            }
            Ok(out)
        },
        Some(v) => match v {
            JsonValue::Arr(elems) => {
                proof {
                    lemma_canon_value_arr_unfold(jv(*v), FieldKind::KDefArrChild(Child::CRec(RecId::RStructuredDocumentationParameter)), FieldKind::KChild(Child::CRec(RecId::RStructuredDocumentationParameter)));
                    assert(jv(*v) == JsonV::Arr(jv_seq(elems@)));
                    lemma_jv_pairs(ps@);
                    let i = choose|i: int| 0 <= i < ps@.len() && ps@[i].1 == *v;
                    assert(jv_pairs(ps@)[i] == (ps@[i].0@, jv(*v)));
                    assert(decreases_to!(jv_pairs(ps@) => jv_pairs(ps@)[i].1));
                    assert(jv(*v)->Arr_0 == jv_seq(elems@));
                    assert(decreases_to!(jv(*v) => jv(*v)->Arr_0));
                }
                match core_arr_documentation_parameter(elems) {
                    Ok(xs) => Ok(xs),
                    Err(e) => Err(prefix_field(k, e)),
                }
            },
            _ => {
                proof {
                    lemma_canon_value_arr_unfold(jv(*v), FieldKind::KDefArrChild(Child::CRec(RecId::RStructuredDocumentationParameter)), FieldKind::KChild(Child::CRec(RecId::RStructuredDocumentationParameter)));
                }
                Err(DecodeError::Invalid(k.to_owned()))
            },
        },
    }
}

/// Decodes the elements of an array of documentation return members.
pub(crate) fn core_arr_documentation_return(elems: &Vec<JsonValue>) -> (r: Result<Vec<StructuredDocumentationReturn>, DecodeError>)
    ensures
        match r {
            Ok(xs) => canon_elems(jv_seq(elems@), 0, FieldKind::KChild(Child::CRec(RecId::RStructuredDocumentationReturn))) == Ok::<Seq<JsonV>, ErrV>(seq_documentation_return_of(xs@)),
            Err(e) => canon_elems(jv_seq(elems@), 0, FieldKind::KChild(Child::CRec(RecId::RStructuredDocumentationReturn))) == Err::<Seq<JsonV>, ErrV>(e.model()),
        },
    decreases jv_seq(elems@), 6int, 0int,
{
    proof {
        reveal(crate::ast::canon::canon_value);
        reveal(crate::ast::canon::canon_field);
    }
    let ghost s = jv_seq(elems@);
    let ghost ek = FieldKind::KChild(Child::CRec(RecId::RStructuredDocumentationReturn));
    proof {
        lemma_jv_seq(elems@);
    }
    let n = elems.len();
    let mut out: Vec<StructuredDocumentationReturn> = Vec::new();
    let mut i: usize = 0;
    while i < n
        invariant
            i <= n,
            n == elems@.len(),
            s == jv_seq(elems@),
            s.len() == n,
            forall|j: int| 0 <= j < n ==> s[j] == jv(elems@[j]),
            out@.len() == i,
            forall|j: int| 0 <= j < i ==> canon_value(#[trigger] s[j], ek) == Ok::<JsonV, ErrV>(
                JsonV::Obj(enc_documentation_return(out@[j])),
            ),
            ek == FieldKind::KChild(Child::CRec(RecId::RStructuredDocumentationReturn)),
        decreases n - i,
    {
        let child = &elems[i];
        proof {
            assert(s[i as int] == jv(*child));
            assert(decreases_to!(s => s[i as int]));
        }
        match child {
            JsonValue::Obj(cps) => {
                proof {
                    assert(jv(*child) == JsonV::Obj(jv_pairs(cps@)));
                    assert(jv(*child)->Obj_0 == jv_pairs(cps@));
                    assert(decreases_to!(jv(*child) => jv(*child)->Obj_0));
                }
                match decode_documentation_return(cps) {
                    Ok(x) => {
                        out.push(x);
                        proof {
                            lemma_canon_value_child_unfold(s[i as int], Child::CRec(RecId::RStructuredDocumentationReturn));
                            
                            assert(canon_value(s[i as int], ek) == Ok::<JsonV, ErrV>(JsonV::Obj(enc_documentation_return(x))));
                        }
                    },
                    Err(e) => {
                        proof {
                            lemma_canon_value_child_unfold(s[i as int], Child::CRec(RecId::RStructuredDocumentationReturn));
                            
                            lemma_canon_fields_err_shape(jv_pairs(cps@), schema(RecId::RStructuredDocumentationReturn), 0);
                            lemma_canon_elems_err(s, i as int, ek);
                            assert(prefix_err(
                                idx_path(i as int),
                                canon_value(s[i as int], ek)->Err_0,
                            ) == prefix_err(idx_path(i as int), e.model()));
                        }
                        return Err(prefix_index(i, e));
                    },
                }
            },
            _ => {
                proof {
                    lemma_canon_value_child_unfold(s[i as int], Child::CRec(RecId::RStructuredDocumentationReturn));
                    
                    lemma_canon_elems_err(s, i as int, ek);
                }
                return Err(prefix_index(i, DecodeError::Invalid(String::new())));
            },
        }
        i += 1;
    }
    proof {
        lemma_canon_elems_ok(s, ek);
        let cs = canon_elems(s, 0, ek)->Ok_0;
        assert forall|j: int| 0 <= j < n implies cs[j] == seq_documentation_return_of(out@)[j] by {
            assert(canon_value(s[j], ek) == Ok::<JsonV, ErrV>(JsonV::Obj(enc_documentation_return(out@[j]))));
        }
        assert(cs =~= seq_documentation_return_of(out@));
    }
    Ok(out)
}

/// Reads an array-of-documentation return member that is empty when absent.
pub(crate) fn g_dac_documentation_return(ps: &Vec<(String, JsonValue)>, k: &str) -> (r: Result<Vec<StructuredDocumentationReturn>, DecodeError>)
    ensures
        field_matches(r, ps@, k@, FieldKind::KDefArrChild(Child::CRec(RecId::RStructuredDocumentationReturn)), |x: Vec<StructuredDocumentationReturn>| Some(JsonV::Arr(seq_documentation_return_of(x@)))),
    decreases jv_pairs(ps@), 4int, 0int,
{
    proof {
        reveal(crate::ast::canon::canon_field);
        reveal(crate::ast::canon::canon_value);
    }
    match obj_get(ps, k) {
        None => {
            let out: Vec<StructuredDocumentationReturn> = Vec::new();
            proof {
                assert(seq_documentation_return_of(out@) =~= Seq::<JsonV>::empty());
            }
            Ok(out)
        },
        Some(v) => match v {
            JsonValue::Arr(elems) => {
                proof {
                    lemma_canon_value_arr_unfold(jv(*v), FieldKind::KDefArrChild(Child::CRec(RecId::RStructuredDocumentationReturn)), FieldKind::KChild(Child::CRec(RecId::RStructuredDocumentationReturn)));
                    assert(jv(*v) == JsonV::Arr(jv_seq(elems@)));
                    lemma_jv_pairs(ps@);
                    let i = choose|i: int| 0 <= i < ps@.len() && ps@[i].1 == *v;
                    assert(jv_pairs(ps@)[i] == (ps@[i].0@, jv(*v)));
                    assert(decreases_to!(jv_pairs(ps@) => jv_pairs(ps@)[i].1));
                    assert(jv(*v)->Arr_0 == jv_seq(elems@));
                    assert(decreases_to!(jv(*v) => jv(*v)->Arr_0));
                }
                match core_arr_documentation_return(elems) {
                    Ok(xs) => Ok(xs),
                    Err(e) => Err(prefix_field(k, e)),
                }
            },
            _ => {
                proof {
                    lemma_canon_value_arr_unfold(jv(*v), FieldKind::KDefArrChild(Child::CRec(RecId::RStructuredDocumentationReturn)), FieldKind::KChild(Child::CRec(RecId::RStructuredDocumentationReturn)));
                }
                Err(DecodeError::Invalid(k.to_owned()))
            },
        },
    }
}

/// Decodes the elements of an array of type descriptions members.
pub(crate) fn core_arr_type_descriptions(elems: &Vec<JsonValue>) -> (r: Result<Vec<TypeDescriptions>, DecodeError>)
    ensures
        match r {
            Ok(xs) => canon_elems(jv_seq(elems@), 0, FieldKind::KChild(Child::CRec(RecId::RTypeDescriptions))) == Ok::<Seq<JsonV>, ErrV>(seq_type_descriptions_of(xs@)),
            Err(e) => canon_elems(jv_seq(elems@), 0, FieldKind::KChild(Child::CRec(RecId::RTypeDescriptions))) == Err::<Seq<JsonV>, ErrV>(e.model()),
        },
    decreases jv_seq(elems@), 6int, 0int,
{
    proof {
        reveal(crate::ast::canon::canon_value);
        reveal(crate::ast::canon::canon_field);
    }
    let ghost s = jv_seq(elems@);
    let ghost ek = FieldKind::KChild(Child::CRec(RecId::RTypeDescriptions));
    proof {
        lemma_jv_seq(elems@);
    }
    let n = elems.len();
    let mut out: Vec<TypeDescriptions> = Vec::new();
    let mut i: usize = 0;
    while i < n
        invariant
            i <= n,
            n == elems@.len(),
            s == jv_seq(elems@),
            s.len() == n,
            forall|j: int| 0 <= j < n ==> s[j] == jv(elems@[j]),
            out@.len() == i,
            forall|j: int| 0 <= j < i ==> canon_value(#[trigger] s[j], ek) == Ok::<JsonV, ErrV>(
                JsonV::Obj(enc_type_descriptions(out@[j])),
            ),
            ek == FieldKind::KChild(Child::CRec(RecId::RTypeDescriptions)),
        decreases n - i,
    {
        let child = &elems[i];
        proof {
            assert(s[i as int] == jv(*child));
            assert(decreases_to!(s => s[i as int]));
        }
        match child {
            JsonValue::Obj(cps) => {
                proof {
                    assert(jv(*child) == JsonV::Obj(jv_pairs(cps@)));
                    assert(jv(*child)->Obj_0 == jv_pairs(cps@));
                    assert(decreases_to!(jv(*child) => jv(*child)->Obj_0));
                }
                match decode_type_descriptions(cps) {
                    Ok(x) => {
                        out.push(x);
                        proof {
                            lemma_canon_value_child_unfold(s[i as int], Child::CRec(RecId::RTypeDescriptions));
                            
                            assert(canon_value(s[i as int], ek) == Ok::<JsonV, ErrV>(JsonV::Obj(enc_type_descriptions(x))));
                        }
                    },
                    Err(e) => {
                        proof {
                            lemma_canon_value_child_unfold(s[i as int], Child::CRec(RecId::RTypeDescriptions));
                            
                            lemma_canon_fields_err_shape(jv_pairs(cps@), schema(RecId::RTypeDescriptions), 0);
                            lemma_canon_elems_err(s, i as int, ek);
                            assert(prefix_err(
                                idx_path(i as int),
                                canon_value(s[i as int], ek)->Err_0,
                            ) == prefix_err(idx_path(i as int), e.model()));
                        }
                        return Err(prefix_index(i, e));
                    },
                }
            },
            _ => {
                proof {
                    lemma_canon_value_child_unfold(s[i as int], Child::CRec(RecId::RTypeDescriptions));
                    
                    lemma_canon_elems_err(s, i as int, ek);
                }
                return Err(prefix_index(i, DecodeError::Invalid(String::new())));
            },
        }
        i += 1;
    }
    proof {
        lemma_canon_elems_ok(s, ek);
        let cs = canon_elems(s, 0, ek)->Ok_0;
        assert forall|j: int| 0 <= j < n implies cs[j] == seq_type_descriptions_of(out@)[j] by {
            assert(canon_value(s[j], ek) == Ok::<JsonV, ErrV>(JsonV::Obj(enc_type_descriptions(out@[j]))));
        }
        assert(cs =~= seq_type_descriptions_of(out@));
    }
    Ok(out)
}

/// Reads a required nested type descriptions member.
pub(crate) fn g_c_type_descriptions(ps: &Vec<(String, JsonValue)>, k: &str) -> (r: Result<TypeDescriptions, DecodeError>)
    ensures
        field_matches(
            r,
            ps@,
            k@,
            FieldKind::KChild(Child::CRec(RecId::RTypeDescriptions)),
            |x: TypeDescriptions| Some(JsonV::Obj(enc_type_descriptions(x))),
        ),
    decreases jv_pairs(ps@), 4int, 0int,
{
    proof {
        reveal(crate::ast::canon::canon_field);
        reveal(crate::ast::canon::canon_value);
    }
    match obj_get(ps, k) {
        None => Err(DecodeError::Missing(k.to_owned())),
        Some(v) => match v {
            JsonValue::Obj(cps) => {
                proof {
                    assert(jv(*v) == JsonV::Obj(jv_pairs(cps@)));
                    lemma_jv_pairs(ps@);
                    let i = choose|i: int| 0 <= i < ps@.len() && ps@[i].1 == *v;
                    assert(jv_pairs(ps@)[i] == (ps@[i].0@, jv(*v)));
                    assert(decreases_to!(jv_pairs(ps@) => jv_pairs(ps@)[i].1));
                    assert(jv(*v)->Obj_0 == jv_pairs(cps@));
                    assert(decreases_to!(jv(*v) => jv(*v)->Obj_0));
                }
                match decode_type_descriptions(cps) {
                    Ok(x) => Ok(x),
                    Err(e) => {
                        proof {
                            lemma_canon_fields_err_shape(jv_pairs(cps@), schema(RecId::RTypeDescriptions), 0);
                        }
                        Err(prefix_field(k, e))
                    },
                }
            },
            _ => Err(DecodeError::Invalid(k.to_owned())),
        },
    }
}

/// Reads an optional array-of-type descriptions member.
pub(crate) fn g_oac_type_descriptions(ps: &Vec<(String, JsonValue)>, k: &str) -> (r: Result<Option<Vec<TypeDescriptions>>, DecodeError>)
    ensures
        field_matches(r, ps@, k@, FieldKind::KOptArrChild(Child::CRec(RecId::RTypeDescriptions)), |x: Option<Vec<TypeDescriptions>>| Some(opt_arr_type_descriptions_of(x))),
    decreases jv_pairs(ps@), 4int, 0int,
{
    proof {
        reveal(crate::ast::canon::canon_field);
        reveal(crate::ast::canon::canon_value);
    }
    match obj_get(ps, k) {
        None => Ok(None),
        Some(v) => match v {
            JsonValue::Null => {
                proof {
                    lemma_canon_value_opt_arr_unfold(jv(*v), FieldKind::KOptArrChild(Child::CRec(RecId::RTypeDescriptions)), FieldKind::KChild(Child::CRec(RecId::RTypeDescriptions)));
                }
                Ok(None)
            },
            JsonValue::Arr(elems) => {
                proof {
                    lemma_canon_value_opt_arr_unfold(jv(*v), FieldKind::KOptArrChild(Child::CRec(RecId::RTypeDescriptions)), FieldKind::KChild(Child::CRec(RecId::RTypeDescriptions)));
                    assert(jv(*v) == JsonV::Arr(jv_seq(elems@)));
                    lemma_jv_pairs(ps@);
                    let i = choose|i: int| 0 <= i < ps@.len() && ps@[i].1 == *v;
                    assert(jv_pairs(ps@)[i] == (ps@[i].0@, jv(*v)));
                    assert(decreases_to!(jv_pairs(ps@) => jv_pairs(ps@)[i].1));
                    assert(jv(*v)->Arr_0 == jv_seq(elems@));
                    assert(decreases_to!(jv(*v) => jv(*v)->Arr_0));
                }
                match core_arr_type_descriptions(elems) {
                    Ok(xs) => Ok(Some(xs)),
                    Err(e) => Err(prefix_field(k, e)),
                }
            },
            _ => {
                proof {
                    lemma_canon_value_opt_arr_unfold(jv(*v), FieldKind::KOptArrChild(Child::CRec(RecId::RTypeDescriptions)), FieldKind::KChild(Child::CRec(RecId::RTypeDescriptions)));
                }
                Err(DecodeError::Invalid(k.to_owned()))
            },
        },
    }
}

/// Decodes the elements of an array of external reference members.
pub(crate) fn core_arr_external_reference(elems: &Vec<JsonValue>) -> (r: Result<Vec<ExternalReference>, DecodeError>)
    ensures
        match r {
            Ok(xs) => canon_elems(jv_seq(elems@), 0, FieldKind::KChild(Child::CRec(RecId::RExternalReference))) == Ok::<Seq<JsonV>, ErrV>(seq_external_reference_of(xs@)),
            Err(e) => canon_elems(jv_seq(elems@), 0, FieldKind::KChild(Child::CRec(RecId::RExternalReference))) == Err::<Seq<JsonV>, ErrV>(e.model()),
        },
    decreases jv_seq(elems@), 6int, 0int,
{
    proof {
        reveal(crate::ast::canon::canon_value);
        reveal(crate::ast::canon::canon_field);
    }
    let ghost s = jv_seq(elems@);
    let ghost ek = FieldKind::KChild(Child::CRec(RecId::RExternalReference));
    proof {
        lemma_jv_seq(elems@);
    }
    let n = elems.len();
    let mut out: Vec<ExternalReference> = Vec::new();
    let mut i: usize = 0;
    while i < n
        invariant
            i <= n,
            n == elems@.len(),
            s == jv_seq(elems@),
            s.len() == n,
            forall|j: int| 0 <= j < n ==> s[j] == jv(elems@[j]),
            out@.len() == i,
            forall|j: int| 0 <= j < i ==> canon_value(#[trigger] s[j], ek) == Ok::<JsonV, ErrV>(
                JsonV::Obj(enc_external_reference(out@[j])),
            ),
            ek == FieldKind::KChild(Child::CRec(RecId::RExternalReference)),
        decreases n - i,
    {
        let child = &elems[i];
        proof {
            assert(s[i as int] == jv(*child));
            assert(decreases_to!(s => s[i as int]));
        }
        match child {
            JsonValue::Obj(cps) => {
                proof {
                    assert(jv(*child) == JsonV::Obj(jv_pairs(cps@)));
                    assert(jv(*child)->Obj_0 == jv_pairs(cps@));
                    assert(decreases_to!(jv(*child) => jv(*child)->Obj_0));
                }
                match decode_external_reference(cps) {
                    Ok(x) => {
                        out.push(x);
                        proof {
                            lemma_canon_value_child_unfold(s[i as int], Child::CRec(RecId::RExternalReference));
                            
                            assert(canon_value(s[i as int], ek) == Ok::<JsonV, ErrV>(JsonV::Obj(enc_external_reference(x))));
                        }
                    },
                    Err(e) => {
                        proof {
                            lemma_canon_value_child_unfold(s[i as int], Child::CRec(RecId::RExternalReference));
                            
                            lemma_canon_fields_err_shape(jv_pairs(cps@), schema(RecId::RExternalReference), 0);
                            lemma_canon_elems_err(s, i as int, ek);
                            assert(prefix_err(
                                idx_path(i as int),
                                canon_value(s[i as int], ek)->Err_0,
                            ) == prefix_err(idx_path(i as int), e.model()));
                        }
                        return Err(prefix_index(i, e));
                    },
                }
            },
            _ => {
                proof {
                    lemma_canon_value_child_unfold(s[i as int], Child::CRec(RecId::RExternalReference));
                    
                    lemma_canon_elems_err(s, i as int, ek);
                }
                return Err(prefix_index(i, DecodeError::Invalid(String::new())));
            },
        }
        i += 1;
    }
    proof {
        lemma_canon_elems_ok(s, ek);
        let cs = canon_elems(s, 0, ek)->Ok_0;
        assert forall|j: int| 0 <= j < n implies cs[j] == seq_external_reference_of(out@)[j] by {
            assert(canon_value(s[j], ek) == Ok::<JsonV, ErrV>(JsonV::Obj(enc_external_reference(out@[j]))));
        }
        assert(cs =~= seq_external_reference_of(out@));
    }
    Ok(out)
}

/// Reads an optional array-of-external reference member.
pub(crate) fn g_oac_external_reference(ps: &Vec<(String, JsonValue)>, k: &str) -> (r: Result<Option<Vec<ExternalReference>>, DecodeError>)
    ensures
        field_matches(r, ps@, k@, FieldKind::KOptArrChild(Child::CRec(RecId::RExternalReference)), |x: Option<Vec<ExternalReference>>| Some(opt_arr_external_reference_of(x))),
    decreases jv_pairs(ps@), 4int, 0int,
{
    proof {
        reveal(crate::ast::canon::canon_field);
        reveal(crate::ast::canon::canon_value);
    }
    match obj_get(ps, k) {
        None => Ok(None),
        Some(v) => match v {
            JsonValue::Null => {
                proof {
                    lemma_canon_value_opt_arr_unfold(jv(*v), FieldKind::KOptArrChild(Child::CRec(RecId::RExternalReference)), FieldKind::KChild(Child::CRec(RecId::RExternalReference)));
                }
                Ok(None)
            },
            JsonValue::Arr(elems) => {
                proof {
                    lemma_canon_value_opt_arr_unfold(jv(*v), FieldKind::KOptArrChild(Child::CRec(RecId::RExternalReference)), FieldKind::KChild(Child::CRec(RecId::RExternalReference)));
                    assert(jv(*v) == JsonV::Arr(jv_seq(elems@)));
                    lemma_jv_pairs(ps@);
                    let i = choose|i: int| 0 <= i < ps@.len() && ps@[i].1 == *v;
                    assert(jv_pairs(ps@)[i] == (ps@[i].0@, jv(*v)));
                    assert(decreases_to!(jv_pairs(ps@) => jv_pairs(ps@)[i].1));
                    assert(jv(*v)->Arr_0 == jv_seq(elems@));
                    assert(decreases_to!(jv(*v) => jv(*v)->Arr_0));
                }
                match core_arr_external_reference(elems) {
                    Ok(xs) => Ok(Some(xs)),
                    Err(e) => Err(prefix_field(k, e)),
                }
            },
            _ => {
                proof {
                    lemma_canon_value_opt_arr_unfold(jv(*v), FieldKind::KOptArrChild(Child::CRec(RecId::RExternalReference)), FieldKind::KChild(Child::CRec(RecId::RExternalReference)));
                }
                Err(DecodeError::Invalid(k.to_owned()))
            },
        },
    }
}

/// Decodes a typeDescriptions record from the members of an object.
pub fn decode_type_descriptions(ps: &Vec<(String, JsonValue)>) -> (r: Result<TypeDescriptions, DecodeError>)
    ensures
        match r {
            Ok(x) => canon_fields(jv_pairs(ps@), schema(RecId::RTypeDescriptions), 0) == Ok::<
                Seq<(Seq<char>, JsonV)>,
                ErrV,
            >(enc_type_descriptions(x)),
            Err(e) => canon_fields(jv_pairs(ps@), schema(RecId::RTypeDescriptions), 0) == Err::<
                Seq<(Seq<char>, JsonV)>,
                ErrV,
            >(e.model()),
        },
{
    let ghost psv = jv_pairs(ps@);
    let ghost fs = schema(RecId::RTypeDescriptions);
    let type_identifier = match g_opt_str_omit(ps, "typeIdentifier") {
        Ok(x) => x,
        Err(e) => {
            proof {
                lemma_canon_fields_first_err(psv, fs, 0, 0, e.model());
            }
            return Err(e);
        },
    };
    let type_string = match g_opt_str_omit(ps, "typeString") {
        Ok(x) => x,
        Err(e) => {
            proof {
                assert forall|m: int| 0 <= m < 1 implies canon_field(
                    psv,
                    (#[trigger] fs[m]).0,
                    fs[m].1,
                ) is Ok by {}
                lemma_canon_fields_first_err(psv, fs, 0, 1, e.model());
            }
            return Err(e);
        },
    };
    let result = TypeDescriptions { type_identifier, type_string };
    let ghost outs: Seq<(Seq<char>, Option<JsonV>)> = seq![
        ("typeIdentifier"@, omit_str_of(result.type_identifier)),
        ("typeString"@, omit_str_of(result.type_string)),
    ];
    proof {
        assert forall|j: int| 0 <= j < fs.len() implies (#[trigger] outs[j]).0 == fs[j].0
            && canon_field(psv, fs[j].0, fs[j].1) == Ok::<Option<JsonV>, ErrV>(outs[j].1) by {}
        lemma_canon_fields_ok(psv, fs, outs, 0);
        assert(cat_opts(outs, 0) =~= enc_type_descriptions(result)) by {
            reveal_with_fuel(cat_opts, 4);
        }
    }
    Ok(result)
}

/// Decodes a commonType record from the members of an object.
pub fn decode_common_type(ps: &Vec<(String, JsonValue)>) -> (r: Result<CommonType, DecodeError>)
    ensures
        match r {
            Ok(x) => canon_fields(jv_pairs(ps@), schema(RecId::RCommonType), 0) == Ok::<
                Seq<(Seq<char>, JsonV)>,
                ErrV,
            >(enc_common_type(x)),
            Err(e) => canon_fields(jv_pairs(ps@), schema(RecId::RCommonType), 0) == Err::<
                Seq<(Seq<char>, JsonV)>,
                ErrV,
            >(e.model()),
        },
{
    let ghost psv = jv_pairs(ps@);
    let ghost fs = schema(RecId::RCommonType);
    let type_identifier = match g_str(ps, "typeIdentifier") {
        Ok(x) => x,
        Err(e) => {
            proof {
                lemma_canon_fields_first_err(psv, fs, 0, 0, e.model());
            }
            return Err(e);
        },
    };
    let type_string = match g_str(ps, "typeString") {
        Ok(x) => x,
        Err(e) => {
            proof {
                assert forall|m: int| 0 <= m < 1 implies canon_field(
                    psv,
                    (#[trigger] fs[m]).0,
                    fs[m].1,
                ) is Ok by {}
                lemma_canon_fields_first_err(psv, fs, 0, 1, e.model());
            }
            return Err(e);
        },
    };
    let result = CommonType { type_identifier, type_string };
    let ghost outs: Seq<(Seq<char>, Option<JsonV>)> = seq![
        ("typeIdentifier"@, Some(JsonV::Str(result.type_identifier@))),
        ("typeString"@, Some(JsonV::Str(result.type_string@))),
    ];
    proof {
        assert forall|j: int| 0 <= j < fs.len() implies (#[trigger] outs[j]).0 == fs[j].0
            && canon_field(psv, fs[j].0, fs[j].1) == Ok::<Option<JsonV>, ErrV>(outs[j].1) by {}
        lemma_canon_fields_ok(psv, fs, outs, 0);
        assert(cat_opts(outs, 0) =~= enc_common_type(result)) by {
            reveal_with_fuel(cat_opts, 4);
        }
    }
    Ok(result)
}

/// Decodes a identifier record from the members of an object.
pub fn decode_identifier(ps: &Vec<(String, JsonValue)>) -> (r: Result<Identifier, DecodeError>)
    ensures
        match r {
            Ok(x) => canon_fields(jv_pairs(ps@), schema(RecId::RIdentifier), 0) == Ok::<
                Seq<(Seq<char>, JsonV)>,
                ErrV,
            >(enc_identifier(x)),
            Err(e) => canon_fields(jv_pairs(ps@), schema(RecId::RIdentifier), 0) == Err::<
                Seq<(Seq<char>, JsonV)>,
                ErrV,
            >(e.model()),
        },
{
    let ghost psv = jv_pairs(ps@);
    let ghost fs = schema(RecId::RIdentifier);
    let node_type = match g_tag(ps, "nodeType", "Identifier", Ghost(RecId::RIdentifier)) {
        Ok(x) => x,
        Err(e) => {
            proof {
                lemma_canon_fields_first_err(psv, fs, 0, 0, e.model());
            }
            return Err(e);
        },
    };
    let id = match g_i64(ps, "id") {
        Ok(x) => x,
        Err(e) => {
            proof {
                assert forall|m: int| 0 <= m < 1 implies canon_field(
                    psv,
                    (#[trigger] fs[m]).0,
                    fs[m].1,
                ) is Ok by {}
                lemma_canon_fields_first_err(psv, fs, 0, 1, e.model());
            }
            return Err(e);
        },
    };
    let name = match g_str(ps, "name") {
        Ok(x) => x,
        Err(e) => {
            proof {
                assert forall|m: int| 0 <= m < 2 implies canon_field(
                    psv,
                    (#[trigger] fs[m]).0,
                    fs[m].1,
                ) is Ok by {}
                lemma_canon_fields_first_err(psv, fs, 0, 2, e.model());
            }
            return Err(e);
        },
    };
    let overloaded_declarations = match g_def_arr_i64(ps, "overloadedDeclarations") {
        Ok(x) => x,
        Err(e) => {
            proof {
                assert forall|m: int| 0 <= m < 3 implies canon_field(
                    psv,
                    (#[trigger] fs[m]).0,
                    fs[m].1,
                ) is Ok by {}
                lemma_canon_fields_first_err(psv, fs, 0, 3, e.model());
            }
            return Err(e);
        },
    };
    let referenced_declaration = match g_opt_i64(ps, "referencedDeclaration") {
        Ok(x) => x,
        Err(e) => {
            proof {
                assert forall|m: int| 0 <= m < 4 implies canon_field(
                    psv,
                    (#[trigger] fs[m]).0,
                    fs[m].1,
                ) is Ok by {}
                lemma_canon_fields_first_err(psv, fs, 0, 4, e.model());
            }
            return Err(e);
        },
    };
    let src = match g_src(ps, "src") {
        Ok(x) => x,
        Err(e) => {
            proof {
                assert forall|m: int| 0 <= m < 5 implies canon_field(
                    psv,
                    (#[trigger] fs[m]).0,
                    fs[m].1,
                ) is Ok by {}
                lemma_canon_fields_first_err(psv, fs, 0, 5, e.model());
            }
            return Err(e);
        },
    };
    let type_descriptions = match g_c_type_descriptions(ps, "typeDescriptions") {
        Ok(x) => x,
        Err(e) => {
            proof {
                assert forall|m: int| 0 <= m < 6 implies canon_field(
                    psv,
                    (#[trigger] fs[m]).0,
                    fs[m].1,
                ) is Ok by {}
                lemma_canon_fields_first_err(psv, fs, 0, 6, e.model());
            }
            return Err(e);
        },
    };
    let argument_types = match g_oac_type_descriptions(ps, "argumentTypes") {
        Ok(x) => x,
        Err(e) => {
            proof {
                assert forall|m: int| 0 <= m < 7 implies canon_field(
                    psv,
                    (#[trigger] fs[m]).0,
                    fs[m].1,
                ) is Ok by {}
                lemma_canon_fields_first_err(psv, fs, 0, 7, e.model());
            }
            return Err(e);
        },
    };
    let result = Identifier { node_type, id, name, overloaded_declarations, referenced_declaration, src, type_descriptions, argument_types };
    let ghost outs: Seq<(Seq<char>, Option<JsonV>)> = seq![
        ("nodeType"@, Some(JsonV::Str("Identifier"@))),
        ("id"@, Some(JsonV::Int(result.id as int))),
        ("name"@, Some(JsonV::Str(result.name@))),
        ("overloadedDeclarations"@, Some(JsonV::Arr(ints_of(result.overloaded_declarations@)))),
        ("referencedDeclaration"@, Some(opt_int_of(result.referenced_declaration))),
        ("src"@, Some(JsonV::Str(spec_encode_location(result.src)))),
        ("typeDescriptions"@, Some(JsonV::Obj(enc_type_descriptions(result.type_descriptions)))),
        ("argumentTypes"@, Some(opt_arr_type_descriptions_of(result.argument_types))),
    ];
    proof {
        assert forall|j: int| 0 <= j < fs.len() implies (#[trigger] outs[j]).0 == fs[j].0
            && canon_field(psv, fs[j].0, fs[j].1) == Ok::<Option<JsonV>, ErrV>(outs[j].1) by {}
        lemma_canon_fields_ok(psv, fs, outs, 0);
        assert(cat_opts(outs, 0) =~= enc_identifier(result)) by {
            reveal_with_fuel(cat_opts, 10);
        }
    }
    Ok(result)
}

/// Decodes a elementaryTypeName record from the members of an object.
pub fn decode_elementary_type_name(ps: &Vec<(String, JsonValue)>) -> (r: Result<ElementaryTypeName, DecodeError>)
    ensures
        match r {
            Ok(x) => canon_fields(jv_pairs(ps@), schema(RecId::RElementaryTypeName), 0) == Ok::<
                Seq<(Seq<char>, JsonV)>,
                ErrV,
            >(enc_elementary_type_name(x)),
            Err(e) => canon_fields(jv_pairs(ps@), schema(RecId::RElementaryTypeName), 0) == Err::<
                Seq<(Seq<char>, JsonV)>,
                ErrV,
            >(e.model()),
        },
{
    let ghost psv = jv_pairs(ps@);
    let ghost fs = schema(RecId::RElementaryTypeName);
    let node_type = match g_tag(ps, "nodeType", "ElementaryTypeName", Ghost(RecId::RElementaryTypeName)) {
        Ok(x) => x,
        Err(e) => {
            proof {
                lemma_canon_fields_first_err(psv, fs, 0, 0, e.model());
            }
            return Err(e);
        },
    };
    let id = match g_i64(ps, "id") {
        Ok(x) => x,
        Err(e) => {
            proof {
                assert forall|m: int| 0 <= m < 1 implies canon_field(
                    psv,
                    (#[trigger] fs[m]).0,
                    fs[m].1,
                ) is Ok by {}
                lemma_canon_fields_first_err(psv, fs, 0, 1, e.model());
            }
            return Err(e);
        },
    };
    let name = match g_elem(ps, "name") {
        Ok(x) => x,
        Err(e) => {
            proof {
                assert forall|m: int| 0 <= m < 2 implies canon_field(
                    psv,
                    (#[trigger] fs[m]).0,
                    fs[m].1,
                ) is Ok by {}
                lemma_canon_fields_first_err(psv, fs, 0, 2, e.model());
            }
            return Err(e);
        },
    };
    let src = match g_src(ps, "src") {
        Ok(x) => x,
        Err(e) => {
            proof {
                assert forall|m: int| 0 <= m < 3 implies canon_field(
                    psv,
                    (#[trigger] fs[m]).0,
                    fs[m].1,
                ) is Ok by {}
                lemma_canon_fields_first_err(psv, fs, 0, 3, e.model());
            }
            return Err(e);
        },
    };
    let state_mutability = match g_opt_str_omit(ps, "stateMutability") {
        Ok(x) => x,
        Err(e) => {
            proof {
                assert forall|m: int| 0 <= m < 4 implies canon_field(
                    psv,
                    (#[trigger] fs[m]).0,
                    fs[m].1,
                ) is Ok by {}
                lemma_canon_fields_first_err(psv, fs, 0, 4, e.model());
            }
            return Err(e);
        },
    };
    let type_descriptions = match g_c_type_descriptions(ps, "typeDescriptions") {
        Ok(x) => x,
        Err(e) => {
            proof {
                assert forall|m: int| 0 <= m < 5 implies canon_field(
                    psv,
                    (#[trigger] fs[m]).0,
                    fs[m].1,
                ) is Ok by {}
                lemma_canon_fields_first_err(psv, fs, 0, 5, e.model());
            }
            return Err(e);
        },
    };
    let result = ElementaryTypeName { node_type, id, name, src, state_mutability, type_descriptions };
    let ghost outs: Seq<(Seq<char>, Option<JsonV>)> = seq![
        ("nodeType"@, Some(JsonV::Str("ElementaryTypeName"@))),
        ("id"@, Some(JsonV::Int(result.id as int))),
        ("name"@, Some(JsonV::Str(spec_encode_elementary(result.name)))),
        ("src"@, Some(JsonV::Str(spec_encode_location(result.src)))),
        ("stateMutability"@, omit_str_of(result.state_mutability)),
        ("typeDescriptions"@, Some(JsonV::Obj(enc_type_descriptions(result.type_descriptions)))),
    ];
    proof {
        assert forall|j: int| 0 <= j < fs.len() implies (#[trigger] outs[j]).0 == fs[j].0
            && canon_field(psv, fs[j].0, fs[j].1) == Ok::<Option<JsonV>, ErrV>(outs[j].1) by {}
        lemma_canon_fields_ok(psv, fs, outs, 0);
        assert(cat_opts(outs, 0) =~= enc_elementary_type_name(result)) by {
            reveal_with_fuel(cat_opts, 8);
        }
    }
    Ok(result)
}

/// Decodes a enumValue record from the members of an object.
pub fn decode_enum_value(ps: &Vec<(String, JsonValue)>) -> (r: Result<EnumValue, DecodeError>)
    ensures
        match r {
            Ok(x) => canon_fields(jv_pairs(ps@), schema(RecId::REnumValue), 0) == Ok::<
                Seq<(Seq<char>, JsonV)>,
                ErrV,
            >(enc_enum_value(x)),
            Err(e) => canon_fields(jv_pairs(ps@), schema(RecId::REnumValue), 0) == Err::<
                Seq<(Seq<char>, JsonV)>,
                ErrV,
            >(e.model()),
        },
{
    let ghost psv = jv_pairs(ps@);
    let ghost fs = schema(RecId::REnumValue);
    let id = match g_i64(ps, "id") {
        Ok(x) => x,
        Err(e) => {
            proof {
                lemma_canon_fields_first_err(psv, fs, 0, 0, e.model());
            }
            return Err(e);
        },
    };
    let name = match g_str(ps, "name") {
        Ok(x) => x,
        Err(e) => {
            proof {
                assert forall|m: int| 0 <= m < 1 implies canon_field(
                    psv,
                    (#[trigger] fs[m]).0,
                    fs[m].1,
                ) is Ok by {}
                lemma_canon_fields_first_err(psv, fs, 0, 1, e.model());
            }
            return Err(e);
        },
    };
    let name_location = match g_str(ps, "nameLocation") {
        Ok(x) => x,
        Err(e) => {
            proof {
                assert forall|m: int| 0 <= m < 2 implies canon_field(
                    psv,
                    (#[trigger] fs[m]).0,
                    fs[m].1,
                ) is Ok by {}
                lemma_canon_fields_first_err(psv, fs, 0, 2, e.model());
            }
            return Err(e);
        },
    };
    let src = match g_src(ps, "src") {
        Ok(x) => x,
        Err(e) => {
            proof {
                assert forall|m: int| 0 <= m < 3 implies canon_field(
                    psv,
                    (#[trigger] fs[m]).0,
                    fs[m].1,
                ) is Ok by {}
                lemma_canon_fields_first_err(psv, fs, 0, 3, e.model());
            }
            return Err(e);
        },
    };
    let result = EnumValue { id, name, name_location, src };
    let ghost outs: Seq<(Seq<char>, Option<JsonV>)> = seq![
        ("id"@, Some(JsonV::Int(result.id as int))),
        ("name"@, Some(JsonV::Str(result.name@))),
        ("nameLocation"@, Some(JsonV::Str(result.name_location@))),
        ("src"@, Some(JsonV::Str(spec_encode_location(result.src)))),
    ];
    proof {
        assert forall|j: int| 0 <= j < fs.len() implies (#[trigger] outs[j]).0 == fs[j].0
            && canon_field(psv, fs[j].0, fs[j].1) == Ok::<Option<JsonV>, ErrV>(outs[j].1) by {}
        lemma_canon_fields_ok(psv, fs, outs, 0);
        assert(cat_opts(outs, 0) =~= enc_enum_value(result)) by {
            reveal_with_fuel(cat_opts, 6);
        }
    }
    Ok(result)
}

/// Decodes a identifierPath record from the members of an object.
pub fn decode_identifier_path(ps: &Vec<(String, JsonValue)>) -> (r: Result<IdentifierPath, DecodeError>)
    ensures
        match r {
            Ok(x) => canon_fields(jv_pairs(ps@), schema(RecId::RIdentifierPath), 0) == Ok::<
                Seq<(Seq<char>, JsonV)>,
                ErrV,
            >(enc_identifier_path(x)),
            Err(e) => canon_fields(jv_pairs(ps@), schema(RecId::RIdentifierPath), 0) == Err::<
                Seq<(Seq<char>, JsonV)>,
                ErrV,
            >(e.model()),
        },
{
    let ghost psv = jv_pairs(ps@);
    let ghost fs = schema(RecId::RIdentifierPath);
    let id = match g_i64(ps, "id") {
        Ok(x) => x,
        Err(e) => {
            proof {
                lemma_canon_fields_first_err(psv, fs, 0, 0, e.model());
            }
            return Err(e);
        },
    };
    let name = match g_str(ps, "name") {
        Ok(x) => x,
        Err(e) => {
            proof {
                assert forall|m: int| 0 <= m < 1 implies canon_field(
                    psv,
                    (#[trigger] fs[m]).0,
                    fs[m].1,
                ) is Ok by {}
                lemma_canon_fields_first_err(psv, fs, 0, 1, e.model());
            }
            return Err(e);
        },
    };
    let name_locations = match g_opt_arr_str(ps, "nameLocations") {
        Ok(x) => x,
        Err(e) => {
            proof {
                assert forall|m: int| 0 <= m < 2 implies canon_field(
                    psv,
                    (#[trigger] fs[m]).0,
                    fs[m].1,
                ) is Ok by {}
                lemma_canon_fields_first_err(psv, fs, 0, 2, e.model());
            }
            return Err(e);
        },
    };
    let referenced_declaration = match g_opt_i64(ps, "referencedDeclaration") {
        Ok(x) => x,
        Err(e) => {
            proof {
                assert forall|m: int| 0 <= m < 3 implies canon_field(
                    psv,
                    (#[trigger] fs[m]).0,
                    fs[m].1,
                ) is Ok by {}
                lemma_canon_fields_first_err(psv, fs, 0, 3, e.model());
            }
            return Err(e);
        },
    };
    let src = match g_src(ps, "src") {
        Ok(x) => x,
        Err(e) => {
            proof {
                assert forall|m: int| 0 <= m < 4 implies canon_field(
                    psv,
                    (#[trigger] fs[m]).0,
                    fs[m].1,
                ) is Ok by {}
                lemma_canon_fields_first_err(psv, fs, 0, 4, e.model());
            }
            return Err(e);
        },
    };
    let result = IdentifierPath { id, name, name_locations, referenced_declaration, src };
    let ghost outs: Seq<(Seq<char>, Option<JsonV>)> = seq![
        ("id"@, Some(JsonV::Int(result.id as int))),
        ("name"@, Some(JsonV::Str(result.name@))),
        ("nameLocations"@, Some(opt_strs_of(result.name_locations))),
        ("referencedDeclaration"@, Some(opt_int_of(result.referenced_declaration))),
        ("src"@, Some(JsonV::Str(spec_encode_location(result.src)))),
    ];
    proof {
        assert forall|j: int| 0 <= j < fs.len() implies (#[trigger] outs[j]).0 == fs[j].0
            && canon_field(psv, fs[j].0, fs[j].1) == Ok::<Option<JsonV>, ErrV>(outs[j].1) by {}
        lemma_canon_fields_ok(psv, fs, outs, 0);
        assert(cat_opts(outs, 0) =~= enc_identifier_path(result)) by {
            reveal_with_fuel(cat_opts, 7);
        }
    }
    Ok(result)
}

/// Decodes a overrideSpecifier record from the members of an object.
pub fn decode_override_specifier(ps: &Vec<(String, JsonValue)>) -> (r: Result<OverrideSpecifier, DecodeError>)
    ensures
        match r {
            Ok(x) => canon_fields(jv_pairs(ps@), schema(RecId::ROverrideSpecifier), 0) == Ok::<
                Seq<(Seq<char>, JsonV)>,
                ErrV,
            >(enc_override_specifier(x)),
            Err(e) => canon_fields(jv_pairs(ps@), schema(RecId::ROverrideSpecifier), 0) == Err::<
                Seq<(Seq<char>, JsonV)>,
                ErrV,
            >(e.model()),
        },
{
    let ghost psv = jv_pairs(ps@);
    let ghost fs = schema(RecId::ROverrideSpecifier);
    let id = match g_i64(ps, "id") {
        Ok(x) => x,
        Err(e) => {
            proof {
                lemma_canon_fields_first_err(psv, fs, 0, 0, e.model());
            }
            return Err(e);
        },
    };
    let overrides = match g_dac_identifier_path(ps, "overrides") {
        Ok(x) => x,
        Err(e) => {
            proof {
                assert forall|m: int| 0 <= m < 1 implies canon_field(
                    psv,
                    (#[trigger] fs[m]).0,
                    fs[m].1,
                ) is Ok by {}
                lemma_canon_fields_first_err(psv, fs, 0, 1, e.model());
            }
            return Err(e);
        },
    };
    let src = match g_src(ps, "src") {
        Ok(x) => x,
        Err(e) => {
            proof {
                assert forall|m: int| 0 <= m < 2 implies canon_field(
                    psv,
                    (#[trigger] fs[m]).0,
                    fs[m].1,
                ) is Ok by {}
                lemma_canon_fields_first_err(psv, fs, 0, 2, e.model());
            }
            return Err(e);
        },
    };
    let result = OverrideSpecifier { id, overrides, src };
    let ghost outs: Seq<(Seq<char>, Option<JsonV>)> = seq![
        ("id"@, Some(JsonV::Int(result.id as int))),
        ("overrides"@, Some(JsonV::Arr(seq_identifier_path_of(result.overrides@)))),
        ("src"@, Some(JsonV::Str(spec_encode_location(result.src)))),
    ];
    proof {
        assert forall|j: int| 0 <= j < fs.len() implies (#[trigger] outs[j]).0 == fs[j].0
            && canon_field(psv, fs[j].0, fs[j].1) == Ok::<Option<JsonV>, ErrV>(outs[j].1) by {}
        lemma_canon_fields_ok(psv, fs, outs, 0);
        assert(cat_opts(outs, 0) =~= enc_override_specifier(result)) by {
            reveal_with_fuel(cat_opts, 5);
        }
    }
    Ok(result)
}

/// Decodes a structuredDocumentationParameter record from the members of an object.
pub fn decode_documentation_parameter(ps: &Vec<(String, JsonValue)>) -> (r: Result<StructuredDocumentationParameter, DecodeError>)
    ensures
        match r {
            Ok(x) => canon_fields(jv_pairs(ps@), schema(RecId::RStructuredDocumentationParameter), 0) == Ok::<
                Seq<(Seq<char>, JsonV)>,
                ErrV,
            >(enc_documentation_parameter(x)),
            Err(e) => canon_fields(jv_pairs(ps@), schema(RecId::RStructuredDocumentationParameter), 0) == Err::<
                Seq<(Seq<char>, JsonV)>,
                ErrV,
            >(e.model()),
        },
{
    let ghost psv = jv_pairs(ps@);
    let ghost fs = schema(RecId::RStructuredDocumentationParameter);
    let name = match g_str(ps, "name") {
        Ok(x) => x,
        Err(e) => {
            proof {
                lemma_canon_fields_first_err(psv, fs, 0, 0, e.model());
            }
            return Err(e);
        },
    };
    let description = match g_str(ps, "description") {
        Ok(x) => x,
        Err(e) => {
            proof {
                assert forall|m: int| 0 <= m < 1 implies canon_field(
                    psv,
                    (#[trigger] fs[m]).0,
                    fs[m].1,
                ) is Ok by {}
                lemma_canon_fields_first_err(psv, fs, 0, 1, e.model());
            }
            return Err(e);
        },
    };
    let result = StructuredDocumentationParameter { name, description };
    let ghost outs: Seq<(Seq<char>, Option<JsonV>)> = seq![
        ("name"@, Some(JsonV::Str(result.name@))),
        ("description"@, Some(JsonV::Str(result.description@))),
    ];
    proof {
        assert forall|j: int| 0 <= j < fs.len() implies (#[trigger] outs[j]).0 == fs[j].0
            && canon_field(psv, fs[j].0, fs[j].1) == Ok::<Option<JsonV>, ErrV>(outs[j].1) by {}
        lemma_canon_fields_ok(psv, fs, outs, 0);
        assert(cat_opts(outs, 0) =~= enc_documentation_parameter(result)) by {
            reveal_with_fuel(cat_opts, 4);
        }
    }
    Ok(result)
}

/// Decodes a structuredDocumentationReturn record from the members of an object.
pub fn decode_documentation_return(ps: &Vec<(String, JsonValue)>) -> (r: Result<StructuredDocumentationReturn, DecodeError>)
    ensures
        match r {
            Ok(x) => canon_fields(jv_pairs(ps@), schema(RecId::RStructuredDocumentationReturn), 0) == Ok::<
                Seq<(Seq<char>, JsonV)>,
                ErrV,
            >(enc_documentation_return(x)),
            Err(e) => canon_fields(jv_pairs(ps@), schema(RecId::RStructuredDocumentationReturn), 0) == Err::<
                Seq<(Seq<char>, JsonV)>,
                ErrV,
            >(e.model()),
        },
{
    let ghost psv = jv_pairs(ps@);
    let ghost fs = schema(RecId::RStructuredDocumentationReturn);
    let name = match g_opt_str(ps, "name") {
        Ok(x) => x,
        Err(e) => {
            proof {
                lemma_canon_fields_first_err(psv, fs, 0, 0, e.model());
            }
            return Err(e);
        },
    };
    let description = match g_str(ps, "description") {
        Ok(x) => x,
        Err(e) => {
            proof {
                assert forall|m: int| 0 <= m < 1 implies canon_field(
                    psv,
                    (#[trigger] fs[m]).0,
                    fs[m].1,
                ) is Ok by {}
                lemma_canon_fields_first_err(psv, fs, 0, 1, e.model());
            }
            return Err(e);
        },
    };
    let result = StructuredDocumentationReturn { name, description };
    let ghost outs: Seq<(Seq<char>, Option<JsonV>)> = seq![
        ("name"@, Some(opt_str_of(result.name))),
        ("description"@, Some(JsonV::Str(result.description@))),
    ];
    proof {
        assert forall|j: int| 0 <= j < fs.len() implies (#[trigger] outs[j]).0 == fs[j].0
            && canon_field(psv, fs[j].0, fs[j].1) == Ok::<Option<JsonV>, ErrV>(outs[j].1) by {}
        lemma_canon_fields_ok(psv, fs, outs, 0);
        assert(cat_opts(outs, 0) =~= enc_documentation_return(result)) by {
            reveal_with_fuel(cat_opts, 4);
        }
    }
    Ok(result)
}

/// Decodes a structuredDocumentationCustom record from the members of an object.
pub fn decode_documentation_custom(ps: &Vec<(String, JsonValue)>) -> (r: Result<StructuredDocumentationCustom, DecodeError>)
    ensures
        match r {
            Ok(x) => canon_fields(jv_pairs(ps@), schema(RecId::RStructuredDocumentationCustom), 0) == Ok::<
                Seq<(Seq<char>, JsonV)>,
                ErrV,
            >(enc_documentation_custom(x)),
            Err(e) => canon_fields(jv_pairs(ps@), schema(RecId::RStructuredDocumentationCustom), 0) == Err::<
                Seq<(Seq<char>, JsonV)>,
                ErrV,
            >(e.model()),
        },
{
    let ghost psv = jv_pairs(ps@);
    let ghost fs = schema(RecId::RStructuredDocumentationCustom);
    let tag = match g_str(ps, "tag") {
        Ok(x) => x,
        Err(e) => {
            proof {
                lemma_canon_fields_first_err(psv, fs, 0, 0, e.model());
            }
            return Err(e);
        },
    };
    let content = match g_str(ps, "content") {
        Ok(x) => x,
        Err(e) => {
            proof {
                assert forall|m: int| 0 <= m < 1 implies canon_field(
                    psv,
                    (#[trigger] fs[m]).0,
                    fs[m].1,
                ) is Ok by {}
                lemma_canon_fields_first_err(psv, fs, 0, 1, e.model());
            }
            return Err(e);
        },
    };
    let result = StructuredDocumentationCustom { tag, content };
    let ghost outs: Seq<(Seq<char>, Option<JsonV>)> = seq![
        ("tag"@, Some(JsonV::Str(result.tag@))),
        ("content"@, Some(JsonV::Str(result.content@))),
    ];
    proof {
        assert forall|j: int| 0 <= j < fs.len() implies (#[trigger] outs[j]).0 == fs[j].0
            && canon_field(psv, fs[j].0, fs[j].1) == Ok::<Option<JsonV>, ErrV>(outs[j].1) by {}
        lemma_canon_fields_ok(psv, fs, outs, 0);
        assert(cat_opts(outs, 0) =~= enc_documentation_custom(result)) by {
            reveal_with_fuel(cat_opts, 4);
        }
    }
    Ok(result)
}

/// Decodes a structuredDocumentation record from the members of an object.
#[verifier::rlimit(80)]
pub fn decode_structured_documentation(ps: &Vec<(String, JsonValue)>) -> (r: Result<StructuredDocumentation, DecodeError>)
    ensures
        match r {
            Ok(x) => canon_fields(jv_pairs(ps@), schema(RecId::RStructuredDocumentation), 0) == Ok::<
                Seq<(Seq<char>, JsonV)>,
                ErrV,
            >(enc_structured_documentation(x)),
            Err(e) => canon_fields(jv_pairs(ps@), schema(RecId::RStructuredDocumentation), 0) == Err::<
                Seq<(Seq<char>, JsonV)>,
                ErrV,
            >(e.model()),
        },
{
    let ghost psv = jv_pairs(ps@);
    let ghost fs = schema(RecId::RStructuredDocumentation);
    let id = match g_i64(ps, "id") {
        Ok(x) => x,
        Err(e) => {
            proof {
                lemma_canon_fields_first_err(psv, fs, 0, 0, e.model());
            }
            return Err(e);
        },
    };
    let text = match g_str(ps, "text") {
        Ok(x) => x,
        Err(e) => {
            proof {
                assert forall|m: int| 0 <= m < 1 implies canon_field(
                    psv,
                    (#[trigger] fs[m]).0,
                    fs[m].1,
                ) is Ok by {}
                lemma_canon_fields_first_err(psv, fs, 0, 1, e.model());
            }
            return Err(e);
        },
    };
    let src = match g_src(ps, "src") {
        Ok(x) => x,
        Err(e) => {
            proof {
                assert forall|m: int| 0 <= m < 2 implies canon_field(
                    psv,
                    (#[trigger] fs[m]).0,
                    fs[m].1,
                ) is Ok by {}
                lemma_canon_fields_first_err(psv, fs, 0, 2, e.model());
            }
            return Err(e);
        },
    };
    let url = match g_opt_str(ps, "url") {
        Ok(x) => x,
        Err(e) => {
            proof {
                assert forall|m: int| 0 <= m < 3 implies canon_field(
                    psv,
                    (#[trigger] fs[m]).0,
                    fs[m].1,
                ) is Ok by {}
                lemma_canon_fields_first_err(psv, fs, 0, 3, e.model());
            }
            return Err(e);
        },
    };
    let author = match g_opt_str(ps, "author") {
        Ok(x) => x,
        Err(e) => {
            proof {
                assert forall|m: int| 0 <= m < 4 implies canon_field(
                    psv,
                    (#[trigger] fs[m]).0,
                    fs[m].1,
                ) is Ok by {}
                lemma_canon_fields_first_err(psv, fs, 0, 4, e.model());
            }
            return Err(e);
        },
    };
    let title = match g_opt_str(ps, "title") {
        Ok(x) => x,
        Err(e) => {
            proof {
                assert forall|m: int| 0 <= m < 5 implies canon_field(
                    psv,
                    (#[trigger] fs[m]).0,
                    fs[m].1,
                ) is Ok by {}
                lemma_canon_fields_first_err(psv, fs, 0, 5, e.model());
            }
            return Err(e);
        },
    };
    let notice = match g_opt_str(ps, "notice") {
        Ok(x) => x,
        Err(e) => {
            proof {
                assert forall|m: int| 0 <= m < 6 implies canon_field(
                    psv,
                    (#[trigger] fs[m]).0,
                    fs[m].1,
                ) is Ok by {}
                lemma_canon_fields_first_err(psv, fs, 0, 6, e.model());
            }
            return Err(e);
        },
    };
    let dev = match g_opt_str(ps, "dev") {
        Ok(x) => x,
        Err(e) => {
            proof {
                assert forall|m: int| 0 <= m < 7 implies canon_field(
                    psv,
                    (#[trigger] fs[m]).0,
                    fs[m].1,
                ) is Ok by {}
                lemma_canon_fields_first_err(psv, fs, 0, 7, e.model());
            }
            return Err(e);
        },
    };
    let params = match g_dac_documentation_parameter(ps, "params") {
        Ok(x) => x,
        Err(e) => {
            proof {
                assert forall|m: int| 0 <= m < 8 implies canon_field(
                    psv,
                    (#[trigger] fs[m]).0,
                    fs[m].1,
                ) is Ok by {}
                lemma_canon_fields_first_err(psv, fs, 0, 8, e.model());
            }
            return Err(e);
        },
    };
    let return_values = match g_dac_documentation_return(ps, "returns") {
        Ok(x) => x,
        Err(e) => {
            proof {
                assert forall|m: int| 0 <= m < 9 implies canon_field(
                    psv,
                    (#[trigger] fs[m]).0,
                    fs[m].1,
                ) is Ok by {}
                lemma_canon_fields_first_err(psv, fs, 0, 9, e.model());
            }
            return Err(e);
        },
    };
    let custom = match g_dac_documentation_custom(ps, "custom") {
        Ok(x) => x,
        Err(e) => {
            proof {
                assert forall|m: int| 0 <= m < 10 implies canon_field(
                    psv,
                    (#[trigger] fs[m]).0,
                    fs[m].1,
                ) is Ok by {}
                lemma_canon_fields_first_err(psv, fs, 0, 10, e.model());
            }
            return Err(e);
        },
    };
    let result = StructuredDocumentation { id, text, src, url, author, title, notice, dev, params, return_values, custom };
    let ghost outs: Seq<(Seq<char>, Option<JsonV>)> = seq![
        ("id"@, Some(JsonV::Int(result.id as int))),
        ("text"@, Some(JsonV::Str(result.text@))),
        ("src"@, Some(JsonV::Str(spec_encode_location(result.src)))),
        ("url"@, Some(opt_str_of(result.url))),
        ("author"@, Some(opt_str_of(result.author))),
        ("title"@, Some(opt_str_of(result.title))),
        ("notice"@, Some(opt_str_of(result.notice))),
        ("dev"@, Some(opt_str_of(result.dev))),
        ("params"@, Some(JsonV::Arr(seq_documentation_parameter_of(result.params@)))),
        ("returns"@, Some(JsonV::Arr(seq_documentation_return_of(result.return_values@)))),
        ("custom"@, Some(JsonV::Arr(seq_documentation_custom_of(result.custom@)))),
    ];
    proof {
        assert forall|j: int| 0 <= j < fs.len() implies (#[trigger] outs[j]).0 == fs[j].0
            && canon_field(psv, fs[j].0, fs[j].1) == Ok::<Option<JsonV>, ErrV>(outs[j].1) by {}
        lemma_canon_fields_ok(psv, fs, outs, 0);
        assert(cat_opts(outs, 0) =~= enc_structured_documentation(result)) by {
            reveal_with_fuel(cat_opts, 13);
        }
    }
    Ok(result)
}

/// Decodes a externalReference record from the members of an object.
pub fn decode_external_reference(ps: &Vec<(String, JsonValue)>) -> (r: Result<ExternalReference, DecodeError>)
    ensures
        match r {
            Ok(x) => canon_fields(jv_pairs(ps@), schema(RecId::RExternalReference), 0) == Ok::<
                Seq<(Seq<char>, JsonV)>,
                ErrV,
            >(enc_external_reference(x)),
            Err(e) => canon_fields(jv_pairs(ps@), schema(RecId::RExternalReference), 0) == Err::<
                Seq<(Seq<char>, JsonV)>,
                ErrV,
            >(e.model()),
        },
{
    let ghost psv = jv_pairs(ps@);
    let ghost fs = schema(RecId::RExternalReference);
    let declaration = match g_i64(ps, "declaration") {
        Ok(x) => x,
        Err(e) => {
            proof {
                lemma_canon_fields_first_err(psv, fs, 0, 0, e.model());
            }
            return Err(e);
        },
    };
    let is_offset = match g_bool(ps, "isOffset") {
        Ok(x) => x,
        Err(e) => {
            proof {
                assert forall|m: int| 0 <= m < 1 implies canon_field(
                    psv,
                    (#[trigger] fs[m]).0,
                    fs[m].1,
                ) is Ok by {}
                lemma_canon_fields_first_err(psv, fs, 0, 1, e.model());
            }
            return Err(e);
        },
    };
    let is_slot = match g_bool(ps, "isSlot") {
        Ok(x) => x,
        Err(e) => {
            proof {
                assert forall|m: int| 0 <= m < 2 implies canon_field(
                    psv,
                    (#[trigger] fs[m]).0,
                    fs[m].1,
                ) is Ok by {}
                lemma_canon_fields_first_err(psv, fs, 0, 2, e.model());
            }
            return Err(e);
        },
    };
    let src = match g_src(ps, "src") {
        Ok(x) => x,
        Err(e) => {
            proof {
                assert forall|m: int| 0 <= m < 3 implies canon_field(
                    psv,
                    (#[trigger] fs[m]).0,
                    fs[m].1,
                ) is Ok by {}
                lemma_canon_fields_first_err(psv, fs, 0, 3, e.model());
            }
            return Err(e);
        },
    };
    let value_size = match g_i64(ps, "valueSize") {
        Ok(x) => x,
        Err(e) => {
            proof {
                assert forall|m: int| 0 <= m < 4 implies canon_field(
                    psv,
                    (#[trigger] fs[m]).0,
                    fs[m].1,
                ) is Ok by {}
                lemma_canon_fields_first_err(psv, fs, 0, 4, e.model());
            }
            return Err(e);
        },
    };
    let result = ExternalReference { declaration, is_offset, is_slot, src, value_size };
    let ghost outs: Seq<(Seq<char>, Option<JsonV>)> = seq![
        ("declaration"@, Some(JsonV::Int(result.declaration as int))),
        ("isOffset"@, Some(JsonV::Bool(result.is_offset))),
        ("isSlot"@, Some(JsonV::Bool(result.is_slot))),
        ("src"@, Some(JsonV::Str(spec_encode_location(result.src)))),
        ("valueSize"@, Some(JsonV::Int(result.value_size as int))),
    ];
    proof {
        assert forall|j: int| 0 <= j < fs.len() implies (#[trigger] outs[j]).0 == fs[j].0
            && canon_field(psv, fs[j].0, fs[j].1) == Ok::<Option<JsonV>, ErrV>(outs[j].1) by {}
        lemma_canon_fields_ok(psv, fs, outs, 0);
        assert(cat_opts(outs, 0) =~= enc_external_reference(result)) by {
            reveal_with_fuel(cat_opts, 7);
        }
    }
    Ok(result)
}

/// Decodes a symbolAlias record from the members of an object.
pub fn decode_symbol_alias(ps: &Vec<(String, JsonValue)>) -> (r: Result<SymbolAlias, DecodeError>)
    ensures
        match r {
            Ok(x) => canon_fields(jv_pairs(ps@), schema(RecId::RSymbolAlias), 0) == Ok::<
                Seq<(Seq<char>, JsonV)>,
                ErrV,
            >(enc_symbol_alias(x)),
            Err(e) => canon_fields(jv_pairs(ps@), schema(RecId::RSymbolAlias), 0) == Err::<
                Seq<(Seq<char>, JsonV)>,
                ErrV,
            >(e.model()),
        },
{
    let ghost psv = jv_pairs(ps@);
    let ghost fs = schema(RecId::RSymbolAlias);
    let foreign = match g_c_identifier(ps, "foreign") {
        Ok(x) => x,
        Err(e) => {
            proof {
                lemma_canon_fields_first_err(psv, fs, 0, 0, e.model());
            }
            return Err(e);
        },
    };
    let local = match g_opt_str(ps, "local") {
        Ok(x) => x,
        Err(e) => {
            proof {
                assert forall|m: int| 0 <= m < 1 implies canon_field(
                    psv,
                    (#[trigger] fs[m]).0,
                    fs[m].1,
                ) is Ok by {}
                lemma_canon_fields_first_err(psv, fs, 0, 1, e.model());
            }
            return Err(e);
        },
    };
    let name_location = match g_str(ps, "nameLocation") {
        Ok(x) => x,
        Err(e) => {
            proof {
                assert forall|m: int| 0 <= m < 2 implies canon_field(
                    psv,
                    (#[trigger] fs[m]).0,
                    fs[m].1,
                ) is Ok by {}
                lemma_canon_fields_first_err(psv, fs, 0, 2, e.model());
            }
            return Err(e);
        },
    };
    let result = SymbolAlias { foreign, local, name_location };
    let ghost outs: Seq<(Seq<char>, Option<JsonV>)> = seq![
        ("foreign"@, Some(JsonV::Obj(enc_identifier(result.foreign)))),
        ("local"@, Some(opt_str_of(result.local))),
        ("nameLocation"@, Some(JsonV::Str(result.name_location@))),
    ];
    proof {
        assert forall|j: int| 0 <= j < fs.len() implies (#[trigger] outs[j]).0 == fs[j].0
            && canon_field(psv, fs[j].0, fs[j].1) == Ok::<Option<JsonV>, ErrV>(outs[j].1) by {}
        lemma_canon_fields_ok(psv, fs, outs, 0);
        assert(cat_opts(outs, 0) =~= enc_symbol_alias(result)) by {
            reveal_with_fuel(cat_opts, 5);
        }
    }
    Ok(result)
}

} // verus!
