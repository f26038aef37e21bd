//! Encoders for the node catalog: each emits exactly the canonical members
//! of its record, omitted members left out, everything else in order.

use vstd::prelude::*;

use crate::ast::canon::{
    Child, DecodeError, EnumId, ErrV, Fam, FieldKind, RecId, canon_doc, canon_elems,
    canon_field, canon_fields, canon_members, canon_node, canon_rec, canon_value, cat_opts,
    enum_ok, fam_rec, idx_path, lemma_canon_fields_err_shape, lemma_canon_fields_first_err,
    lemma_canon_fields_ok, lemma_canon_value_arr_unfold, lemma_canon_value_child_unfold,
    lemma_canon_value_map_unfold, lemma_canon_value_opt_arr_unfold,
    lemma_canon_value_opt_child_unfold, prefix_err, prefix_field, prefix_index, rec_tag,
    schema,
};
use crate::ast::fields::{
    field_matches, g_arr_i64, g_bool, g_bool_or_int, g_bool_prefix_alias, g_def_arr_i64,
    g_elem, g_i64, g_opt_arr_i64, g_opt_bool, g_opt_i64, g_opt_str, g_opt_str_omit, g_src,
    g_str, ints_of, lemma_canon_elems_err, lemma_canon_elems_ok, map_ints_of, omit_str_of,
    opt_arr_ints_of, opt_bool_of, opt_int_of, opt_ints_of, opt_str_of, opt_strs_of, strs_of,
};
use crate::ast::shape::{
    enc_array_type_name, enc_assignment, enc_binary_operation, enc_block, enc_break_statement,
    enc_common_type, enc_conditional, enc_continue_statement, enc_contract_definition,
    enc_contract_node, enc_do_while_statement, enc_doc, enc_documentation_custom,
    enc_documentation_parameter, enc_documentation_return, enc_elementary_type_name,
    enc_elementary_type_name_expression, enc_emit_statement, enc_enum_definition,
    enc_enum_value, enc_error_definition, enc_event_definition, enc_expr,
    enc_expression_statement, enc_external_reference, enc_for_statement, enc_function_call,
    enc_function_call_expression, enc_function_call_options, enc_function_definition,
    enc_function_type_name, enc_identifier, enc_identifier_path, enc_if_statement,
    enc_import_directive, enc_index_access, enc_inheritance_specifier, enc_inline_assembly,
    enc_literal, enc_mapping, enc_member_access, enc_modifier_definition,
    enc_modifier_invocation, enc_new_expression, enc_override_specifier, enc_parameter_list,
    enc_placeholder_statement, enc_pragma_directive, enc_return_statement,
    enc_revert_statement, enc_source_unit, enc_source_unit_node, enc_stmt,
    enc_struct_definition, enc_structured_documentation, enc_symbol_alias,
    enc_try_catch_clause, enc_try_statement, enc_tuple_expression, enc_type_descriptions,
    enc_type_name, enc_unary_operation, enc_unchecked_block, enc_user_defined_type_name,
    enc_user_defined_value_type_definition, enc_using_for_directive, enc_variable_declaration,
    enc_variable_declaration_statement, enc_while_statement, lemma_seq_contract_node_of,
    lemma_seq_expr_of, lemma_seq_inheritance_specifier_of, lemma_seq_modifier_invocation_of,
    lemma_seq_opt_expr_of, lemma_seq_opt_variable_declaration_of,
    lemma_seq_source_unit_node_of, lemma_seq_stmt_of, lemma_seq_try_catch_clause_of,
    lemma_seq_type_name_of, lemma_seq_variable_declaration_of, opt_arr_expr_of,
    opt_arr_external_reference_of, opt_arr_inheritance_specifier_of,
    opt_arr_type_descriptions_of, opt_block_of, opt_doc_of, opt_expr_of, opt_free_of,
    opt_identifier_path_of, opt_override_specifier_of, opt_parameter_list_of, opt_spell_mik_of,
    opt_spell_mut_of, opt_spell_sl_of, opt_spell_sm_of, opt_stmt_of, opt_type_name_of,
    opt_user_defined_type_name_of, opt_variable_declaration_of, seq_contract_node_of,
    seq_documentation_custom_of, seq_documentation_parameter_of, seq_documentation_return_of,
    seq_enum_value_of, seq_expr_of, seq_external_reference_of, seq_identifier_path_of,
    seq_inheritance_specifier_of, seq_modifier_invocation_of, seq_opt_expr_of,
    seq_opt_variable_declaration_of, seq_source_unit_node_of, seq_stmt_of, seq_symbol_alias_of,
    seq_try_catch_clause_of, seq_type_descriptions_of, seq_type_name_of,
    seq_variable_declaration_of, spell_ck, spell_fk, spell_lit, spell_mik, spell_mut, spell_sl,
    spell_sm, spell_vis,
};
use crate::ast::common::spec_encode_location;
use crate::ast::types::spec_encode_elementary;
use crate::ast::{
    ArrayTypeName, Assignment, BinaryOperation, Block, Break, CommonType, Conditional,
    Continue, ContractDefinition, ContractDefinitionNode, ContractKind, DoWhileStatement,
    Documentation, ElementaryType, ElementaryTypeName, ElementaryTypeNameExpression,
    EmitStatement, EnumDefinition, EnumValue, ErrorDefinition, EventDefinition, Expression,
    ExpressionStatement, ExternalReference, ForStatement, FunctionCall, FunctionCallExpression,
    FunctionCallOptions, FunctionDefinition, FunctionKind, FunctionTypeName, Identifier,
    IdentifierPath, IfStatement, ImportDirective, IndexAccess, InheritanceSpecifier,
    InlineAssembly, Literal, LiteralKind, Mapping, MemberAccess, ModifierDefinition,
    ModifierInvocation, ModifierInvocationKind, Mutability, NewExpression, OverrideSpecifier,
    ParameterList, PlaceholderStatement, PragmaDirective, Return, RevertStatement,
    SourceLocation, SourceUnit, SourceUnitNode, StateMutability, Statement, StorageLocation,
    StructDefinition, StructuredDocumentation, StructuredDocumentationCustom,
    StructuredDocumentationParameter, StructuredDocumentationReturn, SymbolAlias,
    TryCatchClause, TryStatement, TupleExpression, TypeDescriptions, TypeName, UnaryOperation,
    UncheckedBlock, UserDefinedTypeName, UserDefinedValueTypeDefinition, UsingForDirective,
    VariableDeclaration, VariableDeclarationStatement, Visibility, WhileStatement,
};
use crate::ast::common::encode_location;
use crate::ast::types::encode_elementary;
use crate::json::{
    clone_json, jv, jv_lookup, jv_pairs, jv_seq, lemma_jv_pairs, lemma_jv_seq, obj_get, str_eq,
    JsonV, JsonValue,
};

verus! {

/// Renders the wire spelling of a Visibility value.
pub fn encode_vis(x: &Visibility) -> (r: String)
    ensures
        r@ == spell_vis(*x),
{
    match x {
        Visibility::External => String::from_str("external"),
        Visibility::Public => String::from_str("public"),
        Visibility::Internal => String::from_str("internal"),
        Visibility::Private => String::from_str("private"),
    }
}

/// Renders the wire spelling of a StateMutability value.
pub fn encode_sm(x: &StateMutability) -> (r: String)
    ensures
        r@ == spell_sm(*x),
{
    match x {
        StateMutability::Pure => String::from_str("pure"),
        StateMutability::View => String::from_str("view"),
        StateMutability::Nonpayable => String::from_str("nonpayable"),
        StateMutability::Payable => String::from_str("payable"),
    }
}

/// Renders the wire spelling of a StorageLocation value.
pub fn encode_sl(x: &StorageLocation) -> (r: String)
    ensures
        r@ == spell_sl(*x),
{
    match x {
        StorageLocation::Default => String::from_str("default"),
        StorageLocation::Memory => String::from_str("memory"),
        StorageLocation::Storage => String::from_str("storage"),
        StorageLocation::Calldata => String::from_str("calldata"),
    }
}

/// Renders the wire spelling of a Mutability value.
pub fn encode_mut(x: &Mutability) -> (r: String)
    ensures
        r@ == spell_mut(*x),
{
    match x {
        Mutability::Mutable => String::from_str("mutable"),
        Mutability::Immutable => String::from_str("immutable"),
        Mutability::Constant => String::from_str("constant"),
    }
}

/// Renders the wire spelling of a LiteralKind value.
pub fn encode_lit(x: &LiteralKind) -> (r: String)
    ensures
        r@ == spell_lit(*x),
{
    match x {
        LiteralKind::Bool => String::from_str("bool"),
        LiteralKind::Number => String::from_str("number"),
        LiteralKind::String => String::from_str("string"),
        LiteralKind::HexString => String::from_str("hexString"),
        LiteralKind::UnicodeString => String::from_str("unicodeString"),
    }
}

/// Renders the wire spelling of a ContractKind value.
pub fn encode_ck(x: &ContractKind) -> (r: String)
    ensures
        r@ == spell_ck(*x),
{
    match x {
        ContractKind::Contract => String::from_str("contract"),
        ContractKind::Interface => String::from_str("interface"),
        ContractKind::Library => String::from_str("library"),
    }
}

/// Renders the wire spelling of a FunctionKind value.
pub fn encode_fk(x: &FunctionKind) -> (r: String)
    ensures
        r@ == spell_fk(*x),
{
    match x {
        FunctionKind::Constructor => String::from_str("constructor"),
        FunctionKind::Function => String::from_str("function"),
        FunctionKind::Receive => String::from_str("receive"),
        FunctionKind::Fallback => String::from_str("fallback"),
        FunctionKind::FreeFunction => String::from_str("freeFunction"),
    }
}

/// Renders the wire spelling of a ModifierInvocationKind value.
pub fn encode_mik(x: &ModifierInvocationKind) -> (r: String)
    ensures
        r@ == spell_mik(*x),
{
    match x {
        ModifierInvocationKind::Modifier => String::from_str("modifier"),
        ModifierInvocationKind::BaseConstructorSpecifier => String::from_str("baseConstructorSpecifier"),
        ModifierInvocationKind::ModifierInvocation => String::from_str("modifierInvocation"),
    }
}


/// Encodes an integer array member.
pub(crate) fn enc_vec_i64(v: &Vec<i64>) -> (r: JsonValue)
    ensures
        jv(r) == JsonV::Arr(ints_of(v@)),
{
    let mut out: Vec<JsonValue> = Vec::new();
    let n = v.len();
    let mut i: usize = 0;
    while i < n
        invariant
            i <= n,
            n == v@.len(),
            out@.len() == i,
            forall|j: int| 0 <= j < i ==> jv(#[trigger] out@[j]) == JsonV::Int(v@[j] as int),
        decreases n - i,
    {
        out.push(JsonValue::Int(v[i]));
        i += 1;
    }
    proof {
        lemma_jv_seq(out@);
        assert(jv_seq(out@) =~= ints_of(v@));
    }
    JsonValue::Arr(out)
}

/// Encodes an integer-or-null array member.
pub(crate) fn enc_vec_opt_i64(v: &Vec<Option<i64>>) -> (r: JsonValue)
    ensures
        jv(r) == JsonV::Arr(opt_ints_of(v@)),
{
    let mut out: Vec<JsonValue> = Vec::new();
    let n = v.len();
    let mut i: usize = 0;
    while i < n
        invariant
            i <= n,
            n == v@.len(),
            out@.len() == i,
            forall|j: int| 0 <= j < i ==> jv(#[trigger] out@[j]) == opt_ints_of(v@)[j],
        decreases n - i,
    {
        let c = match &v[i] {
            Some(x) => JsonValue::Int(*x),
            None => JsonValue::Null,
        };
        out.push(c);
        i += 1;
    }
    proof {
        lemma_jv_seq(out@);
        assert(jv_seq(out@) =~= opt_ints_of(v@));
    }
    JsonValue::Arr(out)
}

/// Encodes a string array member.
pub(crate) fn enc_vec_str(v: &Vec<String>) -> (r: JsonValue)
    ensures
        jv(r) == JsonV::Arr(strs_of(v@)),
{
    let mut out: Vec<JsonValue> = Vec::new();
    let n = v.len();
    let mut i: usize = 0;
    while i < n
        invariant
            i <= n,
            n == v@.len(),
            out@.len() == i,
            forall|j: int| 0 <= j < i ==> jv(#[trigger] out@[j]) == JsonV::Str(v@[j]@),
        decreases n - i,
    {
        out.push(JsonValue::Str(v[i].clone()));
        i += 1;
    }
    proof {
        lemma_jv_seq(out@);
        assert(jv_seq(out@) =~= strs_of(v@));
    }
    JsonValue::Arr(out)
}

/// Encodes a name-to-integer-array mapping member.
pub(crate) fn enc_map_i64(v: &Vec<(String, Vec<i64>)>) -> (r: JsonValue)
    ensures
        jv(r) == JsonV::Obj(map_ints_of(v@)),
{
    let mut out: Vec<(String, JsonValue)> = Vec::new();
    let n = v.len();
    let mut i: usize = 0;
    while i < n
        invariant
            i <= n,
            n == v@.len(),
            out@.len() == i,
            forall|j: int| 0 <= j < i ==> (#[trigger] out@[j]).0@ == v@[j].0@ && jv(out@[j].1)
                == JsonV::Arr(ints_of(v@[j].1@)),
        decreases n - i,
    {
        let key = v[i].0.clone();
        let arr = enc_vec_i64(&v[i].1);
        out.push((key, arr));
        i += 1;
    }
    proof {
        lemma_jv_pairs(out@);
        assert(jv_pairs(out@) =~= map_ints_of(v@));
    }
    JsonValue::Obj(out)
}

/// Encodes a documentation member: a bare string stays a string.
pub fn encode_documentation(d: &Documentation) -> (r: JsonValue)
    ensures
        jv(r) == enc_doc(*d),
{
    match d {
        Documentation::String(s) => JsonValue::Str(s.clone()),
        Documentation::Structured(sd) => JsonValue::Obj(encode_structured_documentation(sd)),
    }
}

/// Encodes one whole document.
pub fn encode_document(x: &SourceUnit) -> (r: JsonValue)
    ensures
        jv(r) == JsonV::Obj(enc_source_unit(*x)),
{
    JsonValue::Obj(encode_source_unit(x))
}

/// Encodes an array of contract node members in canonical form.
pub(crate) fn enc_vec_contract_node(v: &Vec<ContractDefinitionNode>) -> (r: JsonValue)
    ensures
        jv(r) == JsonV::Arr(seq_contract_node_of(v@)),
    decreases v@,
{
    let mut out: Vec<JsonValue> = Vec::new();
    let n = v.len();
    let mut i: usize = 0;
    while i < n
        invariant
            i <= n,
            n == v@.len(),
            out@.len() == i,
            forall|j: int| 0 <= j < i ==> jv(#[trigger] out@[j]) == enc_contract_node(v@[j]),
        decreases n - i,
    {
        let item = &v[i];
        let c = encode_contract_node(item);
        out.push(c);
        i += 1;
    }
    proof {
        lemma_jv_seq(out@);
        crate::ast::shape::lemma_seq_contract_node_of(v@);
        assert(jv_seq(out@) =~= seq_contract_node_of(v@));
    }
    JsonValue::Arr(out)
}

/// Encodes an array of enum value members in canonical form.
pub(crate) fn enc_vec_enum_value(v: &Vec<EnumValue>) -> (r: JsonValue)
    ensures
        jv(r) == JsonV::Arr(seq_enum_value_of(v@)),
{
    let mut out: Vec<JsonValue> = Vec::new();
    let n = v.len();
    let mut i: usize = 0;
    while i < n
        invariant
            i <= n,
            n == v@.len(),
            out@.len() == i,
            forall|j: int| 0 <= j < i ==> jv(#[trigger] out@[j]) == JsonV::Obj(enc_enum_value(v@[j])),
        decreases n - i,
    {
        let item = &v[i];
        let c = JsonValue::Obj(encode_enum_value(item));
        out.push(c);
        i += 1;
    }
    proof {
        lemma_jv_seq(out@);
        assert(jv_seq(out@) =~= seq_enum_value_of(v@));
    }
    JsonValue::Arr(out)
}

/// Encodes an array of expr members in canonical form.
pub(crate) fn enc_vec_expr(v: &Vec<Expression>) -> (r: JsonValue)
    ensures
        jv(r) == JsonV::Arr(seq_expr_of(v@)),
    decreases v@,
{
    let mut out: Vec<JsonValue> = Vec::new();
    let n = v.len();
    let mut i: usize = 0;
    while i < n
        invariant
            i <= n,
            n == v@.len(),
            out@.len() == i,
            forall|j: int| 0 <= j < i ==> jv(#[trigger] out@[j]) == enc_expr(v@[j]),
        decreases n - i,
    {
        let item = &v[i];
        let c = encode_expression(item);
        out.push(c);
        i += 1;
    }
    proof {
        lemma_jv_seq(out@);
        crate::ast::shape::lemma_seq_expr_of(v@);
        assert(jv_seq(out@) =~= seq_expr_of(v@));
    }
    JsonValue::Arr(out)
}

/// Encodes an array of identifier path members in canonical form.
pub(crate) fn enc_vec_identifier_path(v: &Vec<IdentifierPath>) -> (r: JsonValue)
    ensures
        jv(r) == JsonV::Arr(seq_identifier_path_of(v@)),
{
    let mut out: Vec<JsonValue> = Vec::new();
    let n = v.len();
    let mut i: usize = 0;
    while i < n
        invariant
            i <= n,
            n == v@.len(),
            out@.len() == i,
            forall|j: int| 0 <= j < i ==> jv(#[trigger] out@[j]) == JsonV::Obj(enc_identifier_path(v@[j])),
        decreases n - i,
    {
        let item = &v[i];
        let c = JsonValue::Obj(encode_identifier_path(item));
        out.push(c);
        i += 1;
    }
    proof {
        lemma_jv_seq(out@);
        assert(jv_seq(out@) =~= seq_identifier_path_of(v@));
    }
    JsonValue::Arr(out)
}

/// Encodes an array of inheritance specifier members in canonical form.
pub(crate) fn enc_vec_inheritance_specifier(v: &Vec<InheritanceSpecifier>) -> (r: JsonValue)
    ensures
        jv(r) == JsonV::Arr(seq_inheritance_specifier_of(v@)),
    decreases v@,
{
    let mut out: Vec<JsonValue> = Vec::new();
    let n = v.len();
    let mut i: usize = 0;
    while i < n
        invariant
            i <= n,
            n == v@.len(),
            out@.len() == i,
            forall|j: int| 0 <= j < i ==> jv(#[trigger] out@[j]) == JsonV::Obj(enc_inheritance_specifier(v@[j])),
        decreases n - i,
    {
        let item = &v[i];
        let c = JsonValue::Obj(encode_inheritance_specifier(item));
        out.push(c);
        i += 1;
    }
    proof {
        lemma_jv_seq(out@);
        crate::ast::shape::lemma_seq_inheritance_specifier_of(v@);
        assert(jv_seq(out@) =~= seq_inheritance_specifier_of(v@));
    }
    JsonValue::Arr(out)
}

/// Encodes an array of modifier invocation members in canonical form.
pub(crate) fn enc_vec_modifier_invocation(v: &Vec<ModifierInvocation>) -> (r: JsonValue)
    ensures
        jv(r) == JsonV::Arr(seq_modifier_invocation_of(v@)),
    decreases v@,
{
    let mut out: Vec<JsonValue> = Vec::new();
    let n = v.len();
    let mut i: usize = 0;
    while i < n
        invariant
            i <= n,
            n == v@.len(),
            out@.len() == i,
            forall|j: int| 0 <= j < i ==> jv(#[trigger] out@[j]) == JsonV::Obj(enc_modifier_invocation(v@[j])),
        decreases n - i,
    {
        let item = &v[i];
        let c = JsonValue::Obj(encode_modifier_invocation(item));
        out.push(c);
        i += 1;
    }
    proof {
        lemma_jv_seq(out@);
        crate::ast::shape::lemma_seq_modifier_invocation_of(v@);
        assert(jv_seq(out@) =~= seq_modifier_invocation_of(v@));
    }
    JsonValue::Arr(out)
}

/// Encodes an array of symbol alias members in canonical form.
pub(crate) fn enc_vec_symbol_alias(v: &Vec<SymbolAlias>) -> (r: JsonValue)
    ensures
        jv(r) == JsonV::Arr(seq_symbol_alias_of(v@)),
{
    let mut out: Vec<JsonValue> = Vec::new();
    let n = v.len();
    let mut i: usize = 0;
    while i < n
        invariant
            i <= n,
            n == v@.len(),
            out@.len() == i,
            forall|j: int| 0 <= j < i ==> jv(#[trigger] out@[j]) == JsonV::Obj(enc_symbol_alias(v@[j])),
        decreases n - i,
    {
        let item = &v[i];
        let c = JsonValue::Obj(encode_symbol_alias(item));
        out.push(c);
        i += 1;
    }
    proof {
        lemma_jv_seq(out@);
        assert(jv_seq(out@) =~= seq_symbol_alias_of(v@));
    }
    JsonValue::Arr(out)
}

/// Encodes an array of documentation custom members in canonical form.
pub(crate) fn enc_vec_documentation_custom(v: &Vec<StructuredDocumentationCustom>) -> (r: JsonValue)
    ensures
        jv(r) == JsonV::Arr(seq_documentation_custom_of(v@)),
{
    let mut out: Vec<JsonValue> = Vec::new();
    let n = v.len();
    let mut i: usize = 0;
    while i < n
        invariant
            i <= n,
            n == v@.len(),
            out@.len() == i,
            forall|j: int| 0 <= j < i ==> jv(#[trigger] out@[j]) == JsonV::Obj(enc_documentation_custom(v@[j])),
        decreases n - i,
    {
        let item = &v[i];
        let c = JsonValue::Obj(encode_documentation_custom(item));
        out.push(c);
        i += 1;
    }
    proof {
        lemma_jv_seq(out@);
        assert(jv_seq(out@) =~= seq_documentation_custom_of(v@));
    }
    JsonValue::Arr(out)
}

/// Encodes an array of documentation parameter members in canonical form.
pub(crate) fn enc_vec_documentation_parameter(v: &Vec<StructuredDocumentationParameter>) -> (r: JsonValue)
    ensures
        jv(r) == JsonV::Arr(seq_documentation_parameter_of(v@)),
{
    let mut out: Vec<JsonValue> = Vec::new();
    let n = v.len();
    let mut i: usize = 0;
    while i < n
        invariant
            i <= n,
            n == v@.len(),
            out@.len() == i,
            forall|j: int| 0 <= j < i ==> jv(#[trigger] out@[j]) == JsonV::Obj(enc_documentation_parameter(v@[j])),
        decreases n - i,
    {
        let item = &v[i];
        let c = JsonValue::Obj(encode_documentation_parameter(item));
        out.push(c);
        i += 1;
    }
    proof {
        lemma_jv_seq(out@);
        assert(jv_seq(out@) =~= seq_documentation_parameter_of(v@));
    }
    JsonValue::Arr(out)
}

/// Encodes an array of documentation return members in canonical form.
pub(crate) fn enc_vec_documentation_return(v: &Vec<StructuredDocumentationReturn>) -> (r: JsonValue)
    ensures
        jv(r) == JsonV::Arr(seq_documentation_return_of(v@)),
{
    let mut out: Vec<JsonValue> = Vec::new();
    let n = v.len();
    let mut i: usize = 0;
    while i < n
        invariant
            i <= n,
            n == v@.len(),
            out@.len() == i,
            forall|j: int| 0 <= j < i ==> jv(#[trigger] out@[j]) == JsonV::Obj(enc_documentation_return(v@[j])),
        decreases n - i,
    {
        let item = &v[i];
        let c = JsonValue::Obj(encode_documentation_return(item));
        out.push(c);
        i += 1;
    }
    proof {
        lemma_jv_seq(out@);
        assert(jv_seq(out@) =~= seq_documentation_return_of(v@));
    }
    JsonValue::Arr(out)
}

/// Encodes an array of stmt members in canonical form.
pub(crate) fn enc_vec_stmt(v: &Vec<Statement>) -> (r: JsonValue)
    ensures
        jv(r) == JsonV::Arr(seq_stmt_of(v@)),
    decreases v@,
{
    let mut out: Vec<JsonValue> = Vec::new();
    let n = v.len();
    let mut i: usize = 0;
    while i < n
        invariant
            i <= n,
            n == v@.len(),
            out@.len() == i,
            forall|j: int| 0 <= j < i ==> jv(#[trigger] out@[j]) == enc_stmt(v@[j]),
        decreases n - i,
    {
        let item = &v[i];
        let c = encode_statement(item);
        out.push(c);
        i += 1;
    }
    proof {
        lemma_jv_seq(out@);
        crate::ast::shape::lemma_seq_stmt_of(v@);
        assert(jv_seq(out@) =~= seq_stmt_of(v@));
    }
    JsonValue::Arr(out)
}

/// Encodes an array of source unit node members in canonical form.
pub(crate) fn enc_vec_source_unit_node(v: &Vec<SourceUnitNode>) -> (r: JsonValue)
    ensures
        jv(r) == JsonV::Arr(seq_source_unit_node_of(v@)),
    decreases v@,
{
    let mut out: Vec<JsonValue> = Vec::new();
    let n = v.len();
    let mut i: usize = 0;
    while i < n
        invariant
            i <= n,
            n == v@.len(),
            out@.len() == i,
            forall|j: int| 0 <= j < i ==> jv(#[trigger] out@[j]) == enc_source_unit_node(v@[j]),
        decreases n - i,
    {
        let item = &v[i];
        let c = encode_source_unit_node(item);
        out.push(c);
        i += 1;
    }
    proof {
        lemma_jv_seq(out@);
        crate::ast::shape::lemma_seq_source_unit_node_of(v@);
        assert(jv_seq(out@) =~= seq_source_unit_node_of(v@));
    }
    JsonValue::Arr(out)
}

/// Encodes an array of try catch clause members in canonical form.
pub(crate) fn enc_vec_try_catch_clause(v: &Vec<TryCatchClause>) -> (r: JsonValue)
    ensures
        jv(r) == JsonV::Arr(seq_try_catch_clause_of(v@)),
    decreases v@,
{
    let mut out: Vec<JsonValue> = Vec::new();
    let n = v.len();
    let mut i: usize = 0;
    while i < n
        invariant
            i <= n,
            n == v@.len(),
            out@.len() == i,
            forall|j: int| 0 <= j < i ==> jv(#[trigger] out@[j]) == JsonV::Obj(enc_try_catch_clause(v@[j])),
        decreases n - i,
    {
        let item = &v[i];
        let c = JsonValue::Obj(encode_try_catch_clause(item));
        out.push(c);
        i += 1;
    }
    proof {
        lemma_jv_seq(out@);
        crate::ast::shape::lemma_seq_try_catch_clause_of(v@);
        assert(jv_seq(out@) =~= seq_try_catch_clause_of(v@));
    }
    JsonValue::Arr(out)
}

/// Encodes an array of type descriptions members in canonical form.
pub(crate) fn enc_vec_type_descriptions(v: &Vec<TypeDescriptions>) -> (r: JsonValue)
    ensures
        jv(r) == JsonV::Arr(seq_type_descriptions_of(v@)),
{
    let mut out: Vec<JsonValue> = Vec::new();
    let n = v.len();
    let mut i: usize = 0;
    while i < n
        invariant
            i <= n,
            n == v@.len(),
            out@.len() == i,
            forall|j: int| 0 <= j < i ==> jv(#[trigger] out@[j]) == JsonV::Obj(enc_type_descriptions(v@[j])),
        decreases n - i,
    {
        let item = &v[i];
        let c = JsonValue::Obj(encode_type_descriptions(item));
        out.push(c);
        i += 1;
    }
    proof {
        lemma_jv_seq(out@);
        assert(jv_seq(out@) =~= seq_type_descriptions_of(v@));
    }
    JsonValue::Arr(out)
}

/// Encodes an array of type name members in canonical form.
pub(crate) fn enc_vec_type_name(v: &Vec<TypeName>) -> (r: JsonValue)
    ensures
        jv(r) == JsonV::Arr(seq_type_name_of(v@)),
    decreases v@,
{
    let mut out: Vec<JsonValue> = Vec::new();
    let n = v.len();
    let mut i: usize = 0;
    while i < n
        invariant
            i <= n,
            n == v@.len(),
            out@.len() == i,
            forall|j: int| 0 <= j < i ==> jv(#[trigger] out@[j]) == enc_type_name(v@[j]),
        decreases n - i,
    {
        let item = &v[i];
        let c = encode_type_name(item);
        out.push(c);
        i += 1;
    }
    proof {
        lemma_jv_seq(out@);
        crate::ast::shape::lemma_seq_type_name_of(v@);
        assert(jv_seq(out@) =~= seq_type_name_of(v@));
    }
    JsonValue::Arr(out)
}

/// Encodes an array of variable declaration members in canonical form.
pub(crate) fn enc_vec_variable_declaration(v: &Vec<VariableDeclaration>) -> (r: JsonValue)
    ensures
        jv(r) == JsonV::Arr(seq_variable_declaration_of(v@)),
    decreases v@,
{
    let mut out: Vec<JsonValue> = Vec::new();
    let n = v.len();
    let mut i: usize = 0;
    while i < n
        invariant
            i <= n,
            n == v@.len(),
            out@.len() == i,
            forall|j: int| 0 <= j < i ==> jv(#[trigger] out@[j]) == JsonV::Obj(enc_variable_declaration(v@[j])),
        decreases n - i,
    {
        let item = &v[i];
        let c = JsonValue::Obj(encode_variable_declaration(item));
        out.push(c);
        i += 1;
    }
    proof {
        lemma_jv_seq(out@);
        crate::ast::shape::lemma_seq_variable_declaration_of(v@);
        assert(jv_seq(out@) =~= seq_variable_declaration_of(v@));
    }
    JsonValue::Arr(out)
}

/// Encodes an array of external reference members in canonical form.
pub(crate) fn enc_vec_external_reference(v: &Vec<ExternalReference>) -> (r: JsonValue)
    ensures
        jv(r) == JsonV::Arr(seq_external_reference_of(v@)),
{
    let mut out: Vec<JsonValue> = Vec::new();
    let n = v.len();
    let mut i: usize = 0;
    while i < n
        invariant
            i <= n,
            n == v@.len(),
            out@.len() == i,
            forall|j: int| 0 <= j < i ==> jv(#[trigger] out@[j]) == JsonV::Obj(enc_external_reference(v@[j])),
        decreases n - i,
    {
        let item = &v[i];
        let c = JsonValue::Obj(encode_external_reference(item));
        out.push(c);
        i += 1;
    }
    proof {
        lemma_jv_seq(out@);
        assert(jv_seq(out@) =~= seq_external_reference_of(v@));
    }
    JsonValue::Arr(out)
}

/// Encodes an array of optional expr members in canonical form.
pub(crate) fn enc_vec_opt_expr(v: &Vec<Option<Expression>>) -> (r: JsonValue)
    ensures
        jv(r) == JsonV::Arr(seq_opt_expr_of(v@)),
    decreases v@,
{
    let mut out: Vec<JsonValue> = Vec::new();
    let n = v.len();
    let mut i: usize = 0;
    while i < n
        invariant
            i <= n,
            n == v@.len(),
            out@.len() == i,
            forall|j: int| 0 <= j < i ==> jv(#[trigger] out@[j]) == opt_expr_of(v@[j]),
        decreases n - i,
    {
        let c = match &v[i] {
            Some(item) => encode_expression(item),
            None => JsonValue::Null,
        };
        out.push(c);
        i += 1;
    }
    proof {
        lemma_jv_seq(out@);
        crate::ast::shape::lemma_seq_opt_expr_of(v@);
        assert(jv_seq(out@) =~= seq_opt_expr_of(v@));
    }
    JsonValue::Arr(out)
}

/// Encodes an array of optional variable declaration members in canonical form.
pub(crate) fn enc_vec_opt_variable_declaration(v: &Vec<Option<VariableDeclaration>>) -> (r: JsonValue)
    ensures
        jv(r) == JsonV::Arr(seq_opt_variable_declaration_of(v@)),
    decreases v@,
{
    let mut out: Vec<JsonValue> = Vec::new();
    let n = v.len();
    let mut i: usize = 0;
    while i < n
        invariant
            i <= n,
            n == v@.len(),
            out@.len() == i,
            forall|j: int| 0 <= j < i ==> jv(#[trigger] out@[j]) == opt_variable_declaration_of(v@[j]),
        decreases n - i,
    {
        let c = match &v[i] {
            Some(item) => JsonValue::Obj(encode_variable_declaration(item)),
            None => JsonValue::Null,
        };
        out.push(c);
        i += 1;
    }
    proof {
        lemma_jv_seq(out@);
        crate::ast::shape::lemma_seq_opt_variable_declaration_of(v@);
        assert(jv_seq(out@) =~= seq_opt_variable_declaration_of(v@));
    }
    JsonValue::Arr(out)
}

/// Encodes a typeDescriptions record as its canonical members.
pub fn encode_type_descriptions(x: &TypeDescriptions) -> (r: Vec<(String, JsonValue)>)
    ensures
        jv_pairs(r@) == enc_type_descriptions(*x),
{
    let mut out: Vec<(String, JsonValue)> = Vec::new();
    match &x.type_identifier {
        Some(s) => out.push(("typeIdentifier".to_owned(), JsonValue::Str(s.clone()))),
        None => {},
    }
    match &x.type_string {
        Some(s) => out.push(("typeString".to_owned(), JsonValue::Str(s.clone()))),
        None => {},
    }
    proof {
        lemma_jv_pairs(out@);
        assert(jv_pairs(out@) =~~= enc_type_descriptions(*x));
    }
    out
}

/// Encodes a commonType record as its canonical members.
pub fn encode_common_type(x: &CommonType) -> (r: Vec<(String, JsonValue)>)
    ensures
        jv_pairs(r@) == enc_common_type(*x),
{
    let mut out: Vec<(String, JsonValue)> = Vec::new();
    out.push(("typeIdentifier".to_owned(), JsonValue::Str(x.type_identifier.clone())));
    out.push(("typeString".to_owned(), JsonValue::Str(x.type_string.clone())));
    proof {
        lemma_jv_pairs(out@);
        assert(jv_pairs(out@) =~~= enc_common_type(*x));
    }
    out
}

/// Encodes a identifier record as its canonical members.
pub fn encode_identifier(x: &Identifier) -> (r: Vec<(String, JsonValue)>)
    ensures
        jv_pairs(r@) == enc_identifier(*x),
{
    let mut out: Vec<(String, JsonValue)> = Vec::new();
    out.push(("nodeType".to_owned(), JsonValue::Str("Identifier".to_owned())));
    out.push(("id".to_owned(), JsonValue::Int(x.id)));
    out.push(("name".to_owned(), JsonValue::Str(x.name.clone())));
    out.push(("overloadedDeclarations".to_owned(), enc_vec_i64(&x.overloaded_declarations)));
    out.push(("referencedDeclaration".to_owned(), (match &x.referenced_declaration {
        Some(n) => JsonValue::Int(*n),
        None => JsonValue::Null,
    })));
    out.push(("src".to_owned(), JsonValue::Str(encode_location(&x.src))));
    out.push(("typeDescriptions".to_owned(), JsonValue::Obj(encode_type_descriptions(&x.type_descriptions))));
    out.push(("argumentTypes".to_owned(), (match &x.argument_types {
        Some(v) => enc_vec_type_descriptions(v),
        None => JsonValue::Null,
    })));
    proof {
        lemma_jv_pairs(out@);
        assert(jv_pairs(out@) =~~= enc_identifier(*x));
    }
    out
}

/// Encodes a elementaryTypeName record as its canonical members.
pub fn encode_elementary_type_name(x: &ElementaryTypeName) -> (r: Vec<(String, JsonValue)>)
    ensures
        jv_pairs(r@) == enc_elementary_type_name(*x),
{
    let mut out: Vec<(String, JsonValue)> = Vec::new();
    out.push(("nodeType".to_owned(), JsonValue::Str("ElementaryTypeName".to_owned())));
    out.push(("id".to_owned(), JsonValue::Int(x.id)));
    out.push(("name".to_owned(), JsonValue::Str(encode_elementary(&x.name))));
    out.push(("src".to_owned(), JsonValue::Str(encode_location(&x.src))));
    match &x.state_mutability {
        Some(s) => out.push(("stateMutability".to_owned(), JsonValue::Str(s.clone()))),
        None => {},
    }
    out.push(("typeDescriptions".to_owned(), JsonValue::Obj(encode_type_descriptions(&x.type_descriptions))));
    proof {
        lemma_jv_pairs(out@);
        assert(jv_pairs(out@) =~~= enc_elementary_type_name(*x));
    }
    out
}

/// Encodes a enumValue record as its canonical members.
pub fn encode_enum_value(x: &EnumValue) -> (r: Vec<(String, JsonValue)>)
    ensures
        jv_pairs(r@) == enc_enum_value(*x),
{
    let mut out: Vec<(String, JsonValue)> = Vec::new();
    out.push(("id".to_owned(), JsonValue::Int(x.id)));
    out.push(("name".to_owned(), JsonValue::Str(x.name.clone())));
    out.push(("nameLocation".to_owned(), JsonValue::Str(x.name_location.clone())));
    out.push(("src".to_owned(), JsonValue::Str(encode_location(&x.src))));
    proof {
        lemma_jv_pairs(out@);
        assert(jv_pairs(out@) =~~= enc_enum_value(*x));
    }
    out
}

/// Encodes a identifierPath record as its canonical members.
pub fn encode_identifier_path(x: &IdentifierPath) -> (r: Vec<(String, JsonValue)>)
    ensures
        jv_pairs(r@) == enc_identifier_path(*x),
{
    let mut out: Vec<(String, JsonValue)> = Vec::new();
    out.push(("id".to_owned(), JsonValue::Int(x.id)));
    out.push(("name".to_owned(), JsonValue::Str(x.name.clone())));
    out.push(("nameLocations".to_owned(), (match &x.name_locations {
        Some(v) => enc_vec_str(v),
        None => JsonValue::Null,
    })));
    out.push(("referencedDeclaration".to_owned(), (match &x.referenced_declaration {
        Some(n) => JsonValue::Int(*n),
        None => JsonValue::Null,
    })));
    out.push(("src".to_owned(), JsonValue::Str(encode_location(&x.src))));
    proof {
        lemma_jv_pairs(out@);
        assert(jv_pairs(out@) =~~= enc_identifier_path(*x));
    }
    out
}

/// Encodes a overrideSpecifier record as its canonical members.
pub fn encode_override_specifier(x: &OverrideSpecifier) -> (r: Vec<(String, JsonValue)>)
    ensures
        jv_pairs(r@) == enc_override_specifier(*x),
{
    let mut out: Vec<(String, JsonValue)> = Vec::new();
    out.push(("id".to_owned(), JsonValue::Int(x.id)));
    out.push(("overrides".to_owned(), enc_vec_identifier_path(&x.overrides)));
    out.push(("src".to_owned(), JsonValue::Str(encode_location(&x.src))));
    proof {
        lemma_jv_pairs(out@);
        assert(jv_pairs(out@) =~~= enc_override_specifier(*x));
    }
    out
}

/// Encodes a structuredDocumentationParameter record as its canonical members.
pub fn encode_documentation_parameter(x: &StructuredDocumentationParameter) -> (r: Vec<(String, JsonValue)>)
    ensures
        jv_pairs(r@) == enc_documentation_parameter(*x),
{
    let mut out: Vec<(String, JsonValue)> = Vec::new();
    out.push(("name".to_owned(), JsonValue::Str(x.name.clone())));
    out.push(("description".to_owned(), JsonValue::Str(x.description.clone())));
    proof {
        lemma_jv_pairs(out@);
        assert(jv_pairs(out@) =~~= enc_documentation_parameter(*x));
    }
    out
}

/// Encodes a structuredDocumentationReturn record as its canonical members.
pub fn encode_documentation_return(x: &StructuredDocumentationReturn) -> (r: Vec<(String, JsonValue)>)
    ensures
        jv_pairs(r@) == enc_documentation_return(*x),
{
    let mut out: Vec<(String, JsonValue)> = Vec::new();
    out.push(("name".to_owned(), (match &x.name {
        Some(s) => JsonValue::Str(s.clone()),
        None => JsonValue::Null,
    })));
    out.push(("description".to_owned(), JsonValue::Str(x.description.clone())));
    proof {
        lemma_jv_pairs(out@);
        assert(jv_pairs(out@) =~~= enc_documentation_return(*x));
    }
    out
}

/// Encodes a structuredDocumentationCustom record as its canonical members.
pub fn encode_documentation_custom(x: &StructuredDocumentationCustom) -> (r: Vec<(String, JsonValue)>)
    ensures
        jv_pairs(r@) == enc_documentation_custom(*x),
{
    let mut out: Vec<(String, JsonValue)> = Vec::new();
    out.push(("tag".to_owned(), JsonValue::Str(x.tag.clone())));
    out.push(("content".to_owned(), JsonValue::Str(x.content.clone())));
    proof {
        lemma_jv_pairs(out@);
        assert(jv_pairs(out@) =~~= enc_documentation_custom(*x));
    }
    out
}

/// Encodes a structuredDocumentation record as its canonical members.
pub fn encode_structured_documentation(x: &StructuredDocumentation) -> (r: Vec<(String, JsonValue)>)
    ensures
        jv_pairs(r@) == enc_structured_documentation(*x),
{
    let mut out: Vec<(String, JsonValue)> = Vec::new();
    out.push(("id".to_owned(), JsonValue::Int(x.id)));
    out.push(("text".to_owned(), JsonValue::Str(x.text.clone())));
    out.push(("src".to_owned(), JsonValue::Str(encode_location(&x.src))));
    out.push(("url".to_owned(), (match &x.url {
        Some(s) => JsonValue::Str(s.clone()),
        None => JsonValue::Null,
    })));
    out.push(("author".to_owned(), (match &x.author {
        Some(s) => JsonValue::Str(s.clone()),
        None => JsonValue::Null,
    })));
    out.push(("title".to_owned(), (match &x.title {
        Some(s) => JsonValue::Str(s.clone()),
        None => JsonValue::Null,
    })));
    out.push(("notice".to_owned(), (match &x.notice {
        Some(s) => JsonValue::Str(s.clone()),
        None => JsonValue::Null,
    })));
    out.push(("dev".to_owned(), (match &x.dev {
        Some(s) => JsonValue::Str(s.clone()),
        None => JsonValue::Null,
    })));
    out.push(("params".to_owned(), enc_vec_documentation_parameter(&x.params)));
    out.push(("returns".to_owned(), enc_vec_documentation_return(&x.return_values)));
    out.push(("custom".to_owned(), enc_vec_documentation_custom(&x.custom)));
    proof {
        lemma_jv_pairs(out@);
        assert(jv_pairs(out@) =~~= enc_structured_documentation(*x));
    }
    out
}

/// Encodes a externalReference record as its canonical members.
pub fn encode_external_reference(x: &ExternalReference) -> (r: Vec<(String, JsonValue)>)
    ensures
        jv_pairs(r@) == enc_external_reference(*x),
{
    let mut out: Vec<(String, JsonValue)> = Vec::new();
    out.push(("declaration".to_owned(), JsonValue::Int(x.declaration)));
    out.push(("isOffset".to_owned(), JsonValue::Bool(x.is_offset)));
    out.push(("isSlot".to_owned(), JsonValue::Bool(x.is_slot)));
    out.push(("src".to_owned(), JsonValue::Str(encode_location(&x.src))));
    out.push(("valueSize".to_owned(), JsonValue::Int(x.value_size)));
    proof {
        lemma_jv_pairs(out@);
        assert(jv_pairs(out@) =~~= enc_external_reference(*x));
    }
    out
}

/// Encodes a symbolAlias record as its canonical members.
pub fn encode_symbol_alias(x: &SymbolAlias) -> (r: Vec<(String, JsonValue)>)
    ensures
        jv_pairs(r@) == enc_symbol_alias(*x),
{
    let mut out: Vec<(String, JsonValue)> = Vec::new();
    out.push(("foreign".to_owned(), JsonValue::Obj(encode_identifier(&x.foreign))));
    out.push(("local".to_owned(), (match &x.local {
        Some(s) => JsonValue::Str(s.clone()),
        None => JsonValue::Null,
    })));
    out.push(("nameLocation".to_owned(), JsonValue::Str(x.name_location.clone())));
    proof {
        lemma_jv_pairs(out@);
        assert(jv_pairs(out@) =~~= enc_symbol_alias(*x));
    }
    out
}

/// Encodes a parameterList record as its canonical members.
pub fn encode_parameter_list(x: &ParameterList) -> (r: Vec<(String, JsonValue)>)
    ensures
        jv_pairs(r@) == enc_parameter_list(*x),
    decreases *x,
{
    let mut out: Vec<(String, JsonValue)> = Vec::new();
    out.push(("id".to_owned(), JsonValue::Int(x.id)));
    out.push(("parameters".to_owned(), enc_vec_variable_declaration(&x.parameters)));
    out.push(("src".to_owned(), JsonValue::Str(encode_location(&x.src))));
    proof {
        lemma_jv_pairs(out@);
        assert(jv_pairs(out@) =~~= enc_parameter_list(*x));
    }
    out
}

/// Encodes a userDefinedTypeName record as its canonical members.
pub fn encode_user_defined_type_name(x: &UserDefinedTypeName) -> (r: Vec<(String, JsonValue)>)
    ensures
        jv_pairs(r@) == enc_user_defined_type_name(*x),
{
    let mut out: Vec<(String, JsonValue)> = Vec::new();
    out.push(("id".to_owned(), JsonValue::Int(x.id)));
    out.push(("pathNode".to_owned(), (match &x.path_node {
        Some(v) => JsonValue::Obj(encode_identifier_path(v)),
        None => JsonValue::Null,
    })));
    out.push(("referenced_declaration".to_owned(), (match &x.referenced_declaration {
        Some(n) => JsonValue::Int(*n),
        None => JsonValue::Null,
    })));
    out.push(("src".to_owned(), JsonValue::Str(encode_location(&x.src))));
    out.push(("typeDescriptions".to_owned(), JsonValue::Obj(encode_type_descriptions(&x.type_descriptions))));
    proof {
        lemma_jv_pairs(out@);
        assert(jv_pairs(out@) =~~= enc_user_defined_type_name(*x));
    }
    out
}

/// Encodes a arrayTypeName record as its canonical members.
pub fn encode_array_type_name(x: &ArrayTypeName) -> (r: Vec<(String, JsonValue)>)
    ensures
        jv_pairs(r@) == enc_array_type_name(*x),
    decreases *x,
{
    let mut out: Vec<(String, JsonValue)> = Vec::new();
    out.push(("id".to_owned(), JsonValue::Int(x.id)));
    out.push(("baseType".to_owned(), encode_type_name(&x.base_type)));
    out.push(("length".to_owned(), (match &x.length {
        Some(v) => encode_expression(v),
        None => JsonValue::Null,
    })));
    out.push(("src".to_owned(), JsonValue::Str(encode_location(&x.src))));
    proof {
        lemma_jv_pairs(out@);
        assert(jv_pairs(out@) =~~= enc_array_type_name(*x));
    }
    out
}

/// Encodes a functionTypeName record as its canonical members.
pub fn encode_function_type_name(x: &FunctionTypeName) -> (r: Vec<(String, JsonValue)>)
    ensures
        jv_pairs(r@) == enc_function_type_name(*x),
    decreases *x,
{
    let mut out: Vec<(String, JsonValue)> = Vec::new();
    out.push(("id".to_owned(), JsonValue::Int(x.id)));
    out.push(("parameterTypes".to_owned(), enc_vec_type_name(&x.parameter_types)));
    out.push(("returnParameterTypes".to_owned(), enc_vec_type_name(&x.return_parameter_types)));
    out.push(("visibility".to_owned(), JsonValue::Str(x.visibility.clone())));
    out.push(("stateMutability".to_owned(), JsonValue::Str(x.state_mutability.clone())));
    out.push(("src".to_owned(), JsonValue::Str(encode_location(&x.src))));
    proof {
        lemma_jv_pairs(out@);
        assert(jv_pairs(out@) =~~= enc_function_type_name(*x));
    }
    out
}

/// Encodes a mapping record as its canonical members.
pub fn encode_mapping(x: &Mapping) -> (r: Vec<(String, JsonValue)>)
    ensures
        jv_pairs(r@) == enc_mapping(*x),
    decreases *x,
{
    let mut out: Vec<(String, JsonValue)> = Vec::new();
    out.push(("id".to_owned(), JsonValue::Int(x.id)));
    out.push(("keyType".to_owned(), encode_type_name(&x.key_type)));
    out.push(("valueType".to_owned(), encode_type_name(&x.value_type)));
    out.push(("src".to_owned(), JsonValue::Str(encode_location(&x.src))));
    proof {
        lemma_jv_pairs(out@);
        assert(jv_pairs(out@) =~~= enc_mapping(*x));
    }
    out
}

/// Encodes a assignment record as its canonical members.
pub fn encode_assignment(x: &Assignment) -> (r: Vec<(String, JsonValue)>)
    ensures
        jv_pairs(r@) == enc_assignment(*x),
    decreases *x,
{
    let mut out: Vec<(String, JsonValue)> = Vec::new();
    out.push(("id".to_owned(), JsonValue::Int(x.id)));
    out.push(("leftHandSide".to_owned(), encode_expression(&x.left_hand_side)));
    out.push(("rightHandSide".to_owned(), encode_expression(&x.right_hand_side)));
    out.push(("operator".to_owned(), JsonValue::Str(x.operator.clone())));
    out.push(("src".to_owned(), JsonValue::Str(encode_location(&x.src))));
    out.push(("typeDescriptions".to_owned(), JsonValue::Obj(encode_type_descriptions(&x.type_descriptions))));
    proof {
        lemma_jv_pairs(out@);
        assert(jv_pairs(out@) =~~= enc_assignment(*x));
    }
    out
}

/// Encodes a binaryOperation record as its canonical members.
pub fn encode_binary_operation(x: &BinaryOperation) -> (r: Vec<(String, JsonValue)>)
    ensures
        jv_pairs(r@) == enc_binary_operation(*x),
    decreases *x,
{
    let mut out: Vec<(String, JsonValue)> = Vec::new();
    out.push(("id".to_owned(), JsonValue::Int(x.id)));
    out.push(("leftExpression".to_owned(), encode_expression(&x.left_expression)));
    out.push(("rightExpression".to_owned(), encode_expression(&x.right_expression)));
    out.push(("operator".to_owned(), JsonValue::Str(x.operator.clone())));
    out.push(("commonType".to_owned(), JsonValue::Obj(encode_common_type(&x.common_type))));
    out.push(("src".to_owned(), JsonValue::Str(encode_location(&x.src))));
    out.push(("isConstant".to_owned(), JsonValue::Bool(x.is_constant)));
    out.push(("isLValue".to_owned(), JsonValue::Bool(x.is_l_value)));
    out.push(("isPure".to_owned(), JsonValue::Bool(x.is_pure)));
    out.push(("lValueRequested".to_owned(), JsonValue::Bool(x.l_value_requested)));
    out.push(("typeDescriptions".to_owned(), JsonValue::Obj(encode_type_descriptions(&x.type_descriptions))));
    proof {
        lemma_jv_pairs(out@);
        assert(jv_pairs(out@) =~~= enc_binary_operation(*x));
    }
    out
}

/// Encodes a conditional record as its canonical members.
pub fn encode_conditional(x: &Conditional) -> (r: Vec<(String, JsonValue)>)
    ensures
        jv_pairs(r@) == enc_conditional(*x),
    decreases *x,
{
    let mut out: Vec<(String, JsonValue)> = Vec::new();
    out.push(("id".to_owned(), JsonValue::Int(x.id)));
    out.push(("condition".to_owned(), encode_expression(&x.condition)));
    out.push(("trueExpression".to_owned(), encode_expression(&x.true_expression)));
    out.push(("falseExpression".to_owned(), encode_expression(&x.false_expression)));
    out.push(("isConstant".to_owned(), JsonValue::Bool(x.is_constant)));
    out.push(("isLValue".to_owned(), JsonValue::Bool(x.is_l_value)));
    out.push(("isPure".to_owned(), JsonValue::Bool(x.is_pure)));
    out.push(("lValueRequested".to_owned(), JsonValue::Bool(x.l_value_requested)));
    out.push(("src".to_owned(), JsonValue::Str(encode_location(&x.src))));
    out.push(("typeDescriptions".to_owned(), JsonValue::Obj(encode_type_descriptions(&x.type_descriptions))));
    proof {
        lemma_jv_pairs(out@);
        assert(jv_pairs(out@) =~~= enc_conditional(*x));
    }
    out
}

/// Encodes a elementaryTypeNameExpression record as its canonical members.
pub fn encode_elementary_type_name_expression(x: &ElementaryTypeNameExpression) -> (r: Vec<(String, JsonValue)>)
    ensures
        jv_pairs(r@) == enc_elementary_type_name_expression(*x),
{
    let mut out: Vec<(String, JsonValue)> = Vec::new();
    out.push(("id".to_owned(), JsonValue::Int(x.id)));
    out.push(("typeName".to_owned(), JsonValue::Obj(encode_elementary_type_name(&x.typename))));
    out.push(("src".to_owned(), JsonValue::Str(encode_location(&x.src))));
    out.push(("typeDescriptions".to_owned(), JsonValue::Obj(encode_type_descriptions(&x.type_descriptions))));
    out.push(("argumentTypes".to_owned(), (match &x.argument_types {
        Some(v) => enc_vec_type_descriptions(v),
        None => JsonValue::Null,
    })));
    proof {
        lemma_jv_pairs(out@);
        assert(jv_pairs(out@) =~~= enc_elementary_type_name_expression(*x));
    }
    out
}

/// Encodes a functionCall record as its canonical members.
#[verifier::rlimit(100)]
#[verifier::spinoff_prover]
pub fn encode_function_call(x: &FunctionCall) -> (r: Vec<(String, JsonValue)>)
    ensures
        jv_pairs(r@) == enc_function_call(*x),
    decreases *x,
{
    let mut out: Vec<(String, JsonValue)> = Vec::new();
    out.push(("id".to_owned(), JsonValue::Int(x.id)));
    out.push(("expression".to_owned(), encode_function_call_expression(&x.expression)));
    out.push(("arguments".to_owned(), enc_vec_expr(&x.arguments)));
    out.push(("names".to_owned(), enc_vec_str(&x.names)));
    out.push(("kind".to_owned(), JsonValue::Str(x.kind.clone())));
    out.push(("src".to_owned(), JsonValue::Str(encode_location(&x.src))));
    out.push(("tryCall".to_owned(), JsonValue::Bool(x.try_call)));
    out.push(("nameLocations".to_owned(), (match &x.name_locations {
        Some(v) => enc_vec_str(v),
        None => JsonValue::Null,
    })));
    out.push(("isConstant".to_owned(), JsonValue::Bool(x.is_constant)));
    out.push(("isLValue".to_owned(), JsonValue::Bool(x.is_l_value)));
    out.push(("isPure".to_owned(), JsonValue::Bool(x.is_pure)));
    out.push(("lValueRequested".to_owned(), JsonValue::Bool(x.l_value_requested)));
    out.push(("typeDescriptions".to_owned(), JsonValue::Obj(encode_type_descriptions(&x.type_descriptions))));
    out.push(("argumentTypes".to_owned(), (match &x.argument_types {
        Some(v) => enc_vec_type_descriptions(v),
        None => JsonValue::Null,
    })));
    proof {
        lemma_jv_pairs(out@);
        assert(jv_pairs(out@)[0] == enc_function_call(*x)[0]);
        assert(jv_pairs(out@)[1] == enc_function_call(*x)[1]);
        assert(jv_pairs(out@)[2] == enc_function_call(*x)[2]);
        assert(jv_pairs(out@)[3] == enc_function_call(*x)[3]);
        assert(jv_pairs(out@)[4] == enc_function_call(*x)[4]);
        assert(jv_pairs(out@)[5] == enc_function_call(*x)[5]);
        assert(jv_pairs(out@)[6] == enc_function_call(*x)[6]);
        assert(jv_pairs(out@)[7] == enc_function_call(*x)[7]);
        assert(jv_pairs(out@)[8] == enc_function_call(*x)[8]);
        assert(jv_pairs(out@)[9] == enc_function_call(*x)[9]);
        assert(jv_pairs(out@)[10] == enc_function_call(*x)[10]);
        assert(jv_pairs(out@)[11] == enc_function_call(*x)[11]);
        assert(jv_pairs(out@)[12] == enc_function_call(*x)[12]);
        assert(jv_pairs(out@)[13] == enc_function_call(*x)[13]);
        assert(jv_pairs(out@) =~~= enc_function_call(*x));
    }
    out
}

/// Encodes a indexAccess record as its canonical members.
pub fn encode_index_access(x: &IndexAccess) -> (r: Vec<(String, JsonValue)>)
    ensures
        jv_pairs(r@) == enc_index_access(*x),
    decreases *x,
{
    let mut out: Vec<(String, JsonValue)> = Vec::new();
    out.push(("id".to_owned(), JsonValue::Int(x.id)));
    out.push(("baseExpression".to_owned(), encode_expression(&x.base_expression)));
    out.push(("indexExpression".to_owned(), (match &x.index_expression {
        Some(v) => encode_expression(v),
        None => JsonValue::Null,
    })));
    out.push(("src".to_owned(), JsonValue::Str(encode_location(&x.src))));
    out.push(("typeDescriptions".to_owned(), JsonValue::Obj(encode_type_descriptions(&x.type_descriptions))));
    proof {
        lemma_jv_pairs(out@);
        assert(jv_pairs(out@) =~~= enc_index_access(*x));
    }
    out
}

/// Encodes a literal record as its canonical members.
pub fn encode_literal(x: &Literal) -> (r: Vec<(String, JsonValue)>)
    ensures
        jv_pairs(r@) == enc_literal(*x),
{
    let mut out: Vec<(String, JsonValue)> = Vec::new();
    out.push(("id".to_owned(), JsonValue::Int(x.id)));
    out.push(("kind".to_owned(), JsonValue::Str(encode_lit(&x.kind))));
    out.push(("value".to_owned(), JsonValue::Str(x.value.clone())));
    out.push(("hexValue".to_owned(), (match &x.hex_value {
        Some(s) => JsonValue::Str(s.clone()),
        None => JsonValue::Null,
    })));
    out.push(("subdenomination".to_owned(), (match &x.subdenomination {
        Some(s) => JsonValue::Str(s.clone()),
        None => JsonValue::Null,
    })));
    out.push(("src".to_owned(), JsonValue::Str(encode_location(&x.src))));
    out.push(("typeDescriptions".to_owned(), JsonValue::Obj(encode_type_descriptions(&x.type_descriptions))));
    out.push(("isConstant".to_owned(), JsonValue::Bool(x.is_constant)));
    out.push(("isLValue".to_owned(), JsonValue::Bool(x.is_l_value)));
    out.push(("isPure".to_owned(), JsonValue::Bool(x.is_pure)));
    out.push(("lValueRequested".to_owned(), JsonValue::Bool(x.l_value_requested)));
    out.push(("formattedValue".to_owned(), (match &x.formatted_value {
        Some(s) => JsonValue::Str(s.clone()),
        None => JsonValue::Null,
    })));
    proof {
        lemma_jv_pairs(out@);
        assert(jv_pairs(out@)[0] == enc_literal(*x)[0]);
        assert(jv_pairs(out@)[1] == enc_literal(*x)[1]);
        assert(jv_pairs(out@)[2] == enc_literal(*x)[2]);
        assert(jv_pairs(out@)[3] == enc_literal(*x)[3]);
        assert(jv_pairs(out@)[4] == enc_literal(*x)[4]);
        assert(jv_pairs(out@)[5] == enc_literal(*x)[5]);
        assert(jv_pairs(out@)[6] == enc_literal(*x)[6]);
        assert(jv_pairs(out@)[7] == enc_literal(*x)[7]);
        assert(jv_pairs(out@)[8] == enc_literal(*x)[8]);
        assert(jv_pairs(out@)[9] == enc_literal(*x)[9]);
        assert(jv_pairs(out@)[10] == enc_literal(*x)[10]);
        assert(jv_pairs(out@)[11] == enc_literal(*x)[11]);
        assert(jv_pairs(out@) =~~= enc_literal(*x));
    }
    out
}

/// Encodes a memberAccess record as its canonical members.
pub fn encode_member_access(x: &MemberAccess) -> (r: Vec<(String, JsonValue)>)
    ensures
        jv_pairs(r@) == enc_member_access(*x),
    decreases *x,
{
    let mut out: Vec<(String, JsonValue)> = Vec::new();
    out.push(("id".to_owned(), JsonValue::Int(x.id)));
    out.push(("expression".to_owned(), encode_expression(&x.expression)));
    out.push(("memberName".to_owned(), JsonValue::Str(x.member_name.clone())));
    out.push(("memberLocation".to_owned(), (match &x.member_location {
        Some(s) => JsonValue::Str(s.clone()),
        None => JsonValue::Null,
    })));
    out.push(("src".to_owned(), JsonValue::Str(encode_location(&x.src))));
    out.push(("referencedDeclaration".to_owned(), (match &x.referenced_declaration {
        Some(n) => JsonValue::Int(*n),
        None => JsonValue::Null,
    })));
    out.push(("typeDescriptions".to_owned(), JsonValue::Obj(encode_type_descriptions(&x.type_descriptions))));
    out.push(("argumentTypes".to_owned(), (match &x.argument_types {
        Some(v) => enc_vec_type_descriptions(v),
        None => JsonValue::Null,
    })));
    out.push(("isConstant".to_owned(), JsonValue::Bool(x.is_constant)));
    out.push(("isLValue".to_owned(), JsonValue::Bool(x.is_l_value)));
    out.push(("isPure".to_owned(), JsonValue::Bool(x.is_pure)));
    out.push(("lValueRequested".to_owned(), JsonValue::Bool(x.l_value_requested)));
    proof {
        lemma_jv_pairs(out@);
        assert(jv_pairs(out@)[0] == enc_member_access(*x)[0]);
        assert(jv_pairs(out@)[1] == enc_member_access(*x)[1]);
        assert(jv_pairs(out@)[2] == enc_member_access(*x)[2]);
        assert(jv_pairs(out@)[3] == enc_member_access(*x)[3]);
        assert(jv_pairs(out@)[4] == enc_member_access(*x)[4]);
        assert(jv_pairs(out@)[5] == enc_member_access(*x)[5]);
        assert(jv_pairs(out@)[6] == enc_member_access(*x)[6]);
        assert(jv_pairs(out@)[7] == enc_member_access(*x)[7]);
        assert(jv_pairs(out@)[8] == enc_member_access(*x)[8]);
        assert(jv_pairs(out@)[9] == enc_member_access(*x)[9]);
        assert(jv_pairs(out@)[10] == enc_member_access(*x)[10]);
        assert(jv_pairs(out@)[11] == enc_member_access(*x)[11]);
        assert(jv_pairs(out@) =~~= enc_member_access(*x));
    }
    out
}

/// Encodes a newExpression record as its canonical members.
pub fn encode_new_expression(x: &NewExpression) -> (r: Vec<(String, JsonValue)>)
    ensures
        jv_pairs(r@) == enc_new_expression(*x),
    decreases *x,
{
    let mut out: Vec<(String, JsonValue)> = Vec::new();
    out.push(("id".to_owned(), JsonValue::Int(x.id)));
    out.push(("typeName".to_owned(), encode_type_name(&x.typename)));
    out.push(("arguments".to_owned(), (match &x.arguments {
        Some(v) => enc_vec_expr(v),
        None => JsonValue::Null,
    })));
    out.push(("src".to_owned(), JsonValue::Str(encode_location(&x.src))));
    out.push(("typeDescriptions".to_owned(), JsonValue::Obj(encode_type_descriptions(&x.type_descriptions))));
    out.push(("argumentTypes".to_owned(), (match &x.argument_types {
        Some(v) => enc_vec_type_descriptions(v),
        None => JsonValue::Null,
    })));
    out.push(("isConstant".to_owned(), JsonValue::Bool(x.is_constant)));
    out.push(("isLValue".to_owned(), JsonValue::Bool(x.is_l_value)));
    out.push(("isPure".to_owned(), JsonValue::Bool(x.is_pure)));
    out.push(("lValueRequested".to_owned(), JsonValue::Bool(x.l_value_requested)));
    proof {
        lemma_jv_pairs(out@);
        assert(jv_pairs(out@) =~~= enc_new_expression(*x));
    }
    out
}

/// Encodes a tupleExpression record as its canonical members.
pub fn encode_tuple_expression(x: &TupleExpression) -> (r: Vec<(String, JsonValue)>)
    ensures
        jv_pairs(r@) == enc_tuple_expression(*x),
    decreases *x,
{
    let mut out: Vec<(String, JsonValue)> = Vec::new();
    out.push(("id".to_owned(), JsonValue::Int(x.id)));
    out.push(("components".to_owned(), enc_vec_opt_expr(&x.components)));
    out.push(("src".to_owned(), JsonValue::Str(encode_location(&x.src))));
    out.push(("typeDescriptions".to_owned(), JsonValue::Obj(encode_type_descriptions(&x.type_descriptions))));
    proof {
        lemma_jv_pairs(out@);
        assert(jv_pairs(out@) =~~= enc_tuple_expression(*x));
    }
    out
}

/// Encodes a unaryOperation record as its canonical members.
pub fn encode_unary_operation(x: &UnaryOperation) -> (r: Vec<(String, JsonValue)>)
    ensures
        jv_pairs(r@) == enc_unary_operation(*x),
    decreases *x,
{
    let mut out: Vec<(String, JsonValue)> = Vec::new();
    out.push(("id".to_owned(), JsonValue::Int(x.id)));
    out.push(("subExpression".to_owned(), encode_expression(&x.sub_expression)));
    out.push(("operator".to_owned(), JsonValue::Str(x.operator.clone())));
    out.push(("isPrefix".to_owned(), JsonValue::Bool(x.is_prefix)));
    out.push(("src".to_owned(), JsonValue::Str(encode_location(&x.src))));
    out.push(("typeDescriptions".to_owned(), JsonValue::Obj(encode_type_descriptions(&x.type_descriptions))));
    out.push(("isConstant".to_owned(), JsonValue::Bool(x.is_constant)));
    out.push(("isLValue".to_owned(), JsonValue::Bool(x.is_l_value)));
    out.push(("isPure".to_owned(), JsonValue::Bool(x.is_pure)));
    out.push(("lValueRequested".to_owned(), JsonValue::Bool(x.l_value_requested)));
    proof {
        lemma_jv_pairs(out@);
        assert(jv_pairs(out@) =~~= enc_unary_operation(*x));
    }
    out
}

/// Encodes a functionCallOptions record as its canonical members.
pub fn encode_function_call_options(x: &FunctionCallOptions) -> (r: Vec<(String, JsonValue)>)
    ensures
        jv_pairs(r@) == enc_function_call_options(*x),
    decreases *x,
{
    let mut out: Vec<(String, JsonValue)> = Vec::new();
    out.push(("id".to_owned(), JsonValue::Int(x.id)));
    out.push(("expression".to_owned(), encode_expression(&x.expression)));
    out.push(("names".to_owned(), enc_vec_str(&x.names)));
    out.push(("options".to_owned(), enc_vec_expr(&x.options)));
    out.push(("src".to_owned(), JsonValue::Str(encode_location(&x.src))));
    out.push(("typeDescriptions".to_owned(), JsonValue::Obj(encode_type_descriptions(&x.type_descriptions))));
    out.push(("nameLocations".to_owned(), (match &x.name_locations {
        Some(v) => enc_vec_str(v),
        None => JsonValue::Null,
    })));
    proof {
        lemma_jv_pairs(out@);
        assert(jv_pairs(out@) =~~= enc_function_call_options(*x));
    }
    out
}

/// Encodes a block record as its canonical members.
pub fn encode_block(x: &Block) -> (r: Vec<(String, JsonValue)>)
    ensures
        jv_pairs(r@) == enc_block(*x),
    decreases *x,
{
    let mut out: Vec<(String, JsonValue)> = Vec::new();
    out.push(("id".to_owned(), JsonValue::Int(x.id)));
    out.push(("statements".to_owned(), enc_vec_stmt(&x.statements)));
    out.push(("src".to_owned(), JsonValue::Str(encode_location(&x.src))));
    proof {
        lemma_jv_pairs(out@);
        assert(jv_pairs(out@) =~~= enc_block(*x));
    }
    out
}

/// Encodes a uncheckedBlock record as its canonical members.
pub fn encode_unchecked_block(x: &UncheckedBlock) -> (r: Vec<(String, JsonValue)>)
    ensures
        jv_pairs(r@) == enc_unchecked_block(*x),
    decreases *x,
{
    let mut out: Vec<(String, JsonValue)> = Vec::new();
    out.push(("id".to_owned(), JsonValue::Int(x.id)));
    out.push(("statements".to_owned(), enc_vec_stmt(&x.statements)));
    out.push(("src".to_owned(), JsonValue::Str(encode_location(&x.src))));
    proof {
        lemma_jv_pairs(out@);
        assert(jv_pairs(out@) =~~= enc_unchecked_block(*x));
    }
    out
}

/// Encodes a break record as its canonical members.
pub fn encode_break_statement(x: &Break) -> (r: Vec<(String, JsonValue)>)
    ensures
        jv_pairs(r@) == enc_break_statement(*x),
{
    let mut out: Vec<(String, JsonValue)> = Vec::new();
    out.push(("id".to_owned(), JsonValue::Int(x.id)));
    out.push(("src".to_owned(), JsonValue::Str(encode_location(&x.src))));
    proof {
        lemma_jv_pairs(out@);
        assert(jv_pairs(out@) =~~= enc_break_statement(*x));
    }
    out
}

/// Encodes a continue record as its canonical members.
pub fn encode_continue_statement(x: &Continue) -> (r: Vec<(String, JsonValue)>)
    ensures
        jv_pairs(r@) == enc_continue_statement(*x),
{
    let mut out: Vec<(String, JsonValue)> = Vec::new();
    out.push(("id".to_owned(), JsonValue::Int(x.id)));
    out.push(("src".to_owned(), JsonValue::Str(encode_location(&x.src))));
    proof {
        lemma_jv_pairs(out@);
        assert(jv_pairs(out@) =~~= enc_continue_statement(*x));
    }
    out
}

/// Encodes a doWhileStatement record as its canonical members.
pub fn encode_do_while_statement(x: &DoWhileStatement) -> (r: Vec<(String, JsonValue)>)
    ensures
        jv_pairs(r@) == enc_do_while_statement(*x),
    decreases *x,
{
    let mut out: Vec<(String, JsonValue)> = Vec::new();
    out.push(("id".to_owned(), JsonValue::Int(x.id)));
    out.push(("condition".to_owned(), encode_expression(&x.condition)));
    out.push(("body".to_owned(), encode_statement(&x.body)));
    out.push(("src".to_owned(), JsonValue::Str(encode_location(&x.src))));
    proof {
        lemma_jv_pairs(out@);
        assert(jv_pairs(out@) =~~= enc_do_while_statement(*x));
    }
    out
}

/// Encodes a emitStatement record as its canonical members.
pub fn encode_emit_statement(x: &EmitStatement) -> (r: Vec<(String, JsonValue)>)
    ensures
        jv_pairs(r@) == enc_emit_statement(*x),
    decreases *x,
{
    let mut out: Vec<(String, JsonValue)> = Vec::new();
    out.push(("id".to_owned(), JsonValue::Int(x.id)));
    out.push(("eventCall".to_owned(), JsonValue::Obj(encode_function_call(&x.event_call))));
    out.push(("src".to_owned(), JsonValue::Str(encode_location(&x.src))));
    proof {
        lemma_jv_pairs(out@);
        assert(jv_pairs(out@) =~~= enc_emit_statement(*x));
    }
    out
}

/// Encodes a expressionStatement record as its canonical members.
pub fn encode_expression_statement(x: &ExpressionStatement) -> (r: Vec<(String, JsonValue)>)
    ensures
        jv_pairs(r@) == enc_expression_statement(*x),
    decreases *x,
{
    let mut out: Vec<(String, JsonValue)> = Vec::new();
    out.push(("id".to_owned(), JsonValue::Int(x.id)));
    out.push(("expression".to_owned(), encode_expression(&x.expression)));
    out.push(("src".to_owned(), JsonValue::Str(encode_location(&x.src))));
    proof {
        lemma_jv_pairs(out@);
        assert(jv_pairs(out@) =~~= enc_expression_statement(*x));
    }
    out
}

/// Encodes a forStatement record as its canonical members.
pub fn encode_for_statement(x: &ForStatement) -> (r: Vec<(String, JsonValue)>)
    ensures
        jv_pairs(r@) == enc_for_statement(*x),
    decreases *x,
{
    let mut out: Vec<(String, JsonValue)> = Vec::new();
    out.push(("id".to_owned(), JsonValue::Int(x.id)));
    out.push(("initializationExpression".to_owned(), (match &x.initialization_expression {
        Some(v) => encode_expression(v),
        None => JsonValue::Null,
    })));
    out.push(("condition".to_owned(), (match &x.condition {
        Some(v) => encode_expression(v),
        None => JsonValue::Null,
    })));
    out.push(("loopExpression".to_owned(), (match &x.loop_expression {
        Some(v) => encode_expression(v),
        None => JsonValue::Null,
    })));
    out.push(("body".to_owned(), encode_statement(&x.body)));
    out.push(("src".to_owned(), JsonValue::Str(encode_location(&x.src))));
    proof {
        lemma_jv_pairs(out@);
        assert(jv_pairs(out@) =~~= enc_for_statement(*x));
    }
    out
}

/// Encodes a ifStatement record as its canonical members.
pub fn encode_if_statement(x: &IfStatement) -> (r: Vec<(String, JsonValue)>)
    ensures
        jv_pairs(r@) == enc_if_statement(*x),
    decreases *x,
{
    let mut out: Vec<(String, JsonValue)> = Vec::new();
    out.push(("id".to_owned(), JsonValue::Int(x.id)));
    out.push(("condition".to_owned(), encode_expression(&x.condition)));
    out.push(("trueBody".to_owned(), encode_statement(&x.true_body)));
    out.push(("falseBody".to_owned(), (match &x.false_body {
        Some(v) => encode_statement(v),
        None => JsonValue::Null,
    })));
    out.push(("src".to_owned(), JsonValue::Str(encode_location(&x.src))));
    proof {
        lemma_jv_pairs(out@);
        assert(jv_pairs(out@) =~~= enc_if_statement(*x));
    }
    out
}

/// Encodes a inlineAssembly record as its canonical members.
pub fn encode_inline_assembly(x: &InlineAssembly) -> (r: Vec<(String, JsonValue)>)
    ensures
        jv_pairs(r@) == enc_inline_assembly(*x),
    decreases *x,
{
    let mut out: Vec<(String, JsonValue)> = Vec::new();
    out.push(("id".to_owned(), JsonValue::Int(x.id)));
    out.push(("operations".to_owned(), (match &x.operations {
        Some(v) => clone_json(v),
        None => JsonValue::Null,
    })));
    out.push(("externalReferences".to_owned(), (match &x.external_references {
        Some(v) => enc_vec_external_reference(v),
        None => JsonValue::Null,
    })));
    out.push(("src".to_owned(), JsonValue::Str(encode_location(&x.src))));
    out.push(("documentation".to_owned(), (match &x.documentation {
        Some(v) => encode_documentation(v),
        None => JsonValue::Null,
    })));
    out.push(("flags".to_owned(), enc_vec_str(&x.flags)));
    proof {
        lemma_jv_pairs(out@);
        assert(jv_pairs(out@) =~~= enc_inline_assembly(*x));
    }
    out
}

/// Encodes a placeholderStatement record as its canonical members.
pub fn encode_placeholder_statement(x: &PlaceholderStatement) -> (r: Vec<(String, JsonValue)>)
    ensures
        jv_pairs(r@) == enc_placeholder_statement(*x),
{
    let mut out: Vec<(String, JsonValue)> = Vec::new();
    out.push(("id".to_owned(), JsonValue::Int(x.id)));
    out.push(("src".to_owned(), JsonValue::Str(encode_location(&x.src))));
    proof {
        lemma_jv_pairs(out@);
        assert(jv_pairs(out@) =~~= enc_placeholder_statement(*x));
    }
    out
}

/// Encodes a return record as its canonical members.
pub fn encode_return_statement(x: &Return) -> (r: Vec<(String, JsonValue)>)
    ensures
        jv_pairs(r@) == enc_return_statement(*x),
    decreases *x,
{
    let mut out: Vec<(String, JsonValue)> = Vec::new();
    out.push(("id".to_owned(), JsonValue::Int(x.id)));
    out.push(("functionReturnParameters".to_owned(), JsonValue::Int(x.function_return_parameters)));
    out.push(("expression".to_owned(), (match &x.expression {
        Some(v) => encode_expression(v),
        None => JsonValue::Null,
    })));
    out.push(("src".to_owned(), JsonValue::Str(encode_location(&x.src))));
    proof {
        lemma_jv_pairs(out@);
        assert(jv_pairs(out@) =~~= enc_return_statement(*x));
    }
    out
}

/// Encodes a revertStatement record as its canonical members.
pub fn encode_revert_statement(x: &RevertStatement) -> (r: Vec<(String, JsonValue)>)
    ensures
        jv_pairs(r@) == enc_revert_statement(*x),
    decreases *x,
{
    let mut out: Vec<(String, JsonValue)> = Vec::new();
    out.push(("id".to_owned(), JsonValue::Int(x.id)));
    out.push(("errorCall".to_owned(), JsonValue::Obj(encode_function_call(&x.error_call))));
    out.push(("src".to_owned(), JsonValue::Str(encode_location(&x.src))));
    proof {
        lemma_jv_pairs(out@);
        assert(jv_pairs(out@) =~~= enc_revert_statement(*x));
    }
    out
}

/// Encodes a tryCatchClause record as its canonical members.
pub fn encode_try_catch_clause(x: &TryCatchClause) -> (r: Vec<(String, JsonValue)>)
    ensures
        jv_pairs(r@) == enc_try_catch_clause(*x),
    decreases *x,
{
    let mut out: Vec<(String, JsonValue)> = Vec::new();
    out.push(("id".to_owned(), JsonValue::Int(x.id)));
    out.push(("kind".to_owned(), JsonValue::Str(x.kind.clone())));
    out.push(("errorName".to_owned(), (match &x.error_name {
        Some(s) => JsonValue::Str(s.clone()),
        None => JsonValue::Null,
    })));
    out.push(("parameters".to_owned(), (match &x.parameters {
        Some(v) => JsonValue::Obj(encode_parameter_list(v)),
        None => JsonValue::Null,
    })));
    out.push(("block".to_owned(), JsonValue::Obj(encode_block(&x.block))));
    out.push(("src".to_owned(), JsonValue::Str(encode_location(&x.src))));
    proof {
        lemma_jv_pairs(out@);
        assert(jv_pairs(out@) =~~= enc_try_catch_clause(*x));
    }
    out
}

/// Encodes a tryStatement record as its canonical members.
pub fn encode_try_statement(x: &TryStatement) -> (r: Vec<(String, JsonValue)>)
    ensures
        jv_pairs(r@) == enc_try_statement(*x),
    decreases *x,
{
    let mut out: Vec<(String, JsonValue)> = Vec::new();
    out.push(("id".to_owned(), JsonValue::Int(x.id)));
    out.push(("expression".to_owned(), encode_expression(&x.expression)));
    out.push(("returnParameters".to_owned(), JsonValue::Obj(encode_parameter_list(&x.return_parameters))));
    out.push(("clauses".to_owned(), enc_vec_try_catch_clause(&x.clauses)));
    out.push(("src".to_owned(), JsonValue::Str(encode_location(&x.src))));
    proof {
        lemma_jv_pairs(out@);
        assert(jv_pairs(out@) =~~= enc_try_statement(*x));
    }
    out
}

/// Encodes a variableDeclarationStatement record as its canonical members.
pub fn encode_variable_declaration_statement(x: &VariableDeclarationStatement) -> (r: Vec<(String, JsonValue)>)
    ensures
        jv_pairs(r@) == enc_variable_declaration_statement(*x),
    decreases *x,
{
    let mut out: Vec<(String, JsonValue)> = Vec::new();
    out.push(("id".to_owned(), JsonValue::Int(x.id)));
    out.push(("assignments".to_owned(), enc_vec_opt_i64(&x.assignments)));
    out.push(("declarations".to_owned(), enc_vec_opt_variable_declaration(&x.declarations)));
    out.push(("initialValue".to_owned(), (match &x.initial_value {
        Some(v) => encode_expression(v),
        None => JsonValue::Null,
    })));
    out.push(("src".to_owned(), JsonValue::Str(encode_location(&x.src))));
    out.push(("documentation".to_owned(), (match &x.documentation {
        Some(v) => encode_documentation(v),
        None => JsonValue::Null,
    })));
    proof {
        lemma_jv_pairs(out@);
        assert(jv_pairs(out@) =~~= enc_variable_declaration_statement(*x));
    }
    out
}

/// Encodes a whileStatement record as its canonical members.
pub fn encode_while_statement(x: &WhileStatement) -> (r: Vec<(String, JsonValue)>)
    ensures
        jv_pairs(r@) == enc_while_statement(*x),
    decreases *x,
{
    let mut out: Vec<(String, JsonValue)> = Vec::new();
    out.push(("id".to_owned(), JsonValue::Int(x.id)));
    out.push(("condition".to_owned(), encode_expression(&x.condition)));
    out.push(("body".to_owned(), encode_statement(&x.body)));
    out.push(("src".to_owned(), JsonValue::Str(encode_location(&x.src))));
    proof {
        lemma_jv_pairs(out@);
        assert(jv_pairs(out@) =~~= enc_while_statement(*x));
    }
    out
}

/// Encodes a variable declaration record as its canonical members.
#[verifier::rlimit(100)]
#[verifier::spinoff_prover]
pub fn encode_variable_declaration(x: &VariableDeclaration) -> (r: Vec<(String, JsonValue)>)
    ensures
        jv_pairs(r@) == enc_variable_declaration(*x),
    decreases *x, 1int,
{
    let mut out = encode_variable_declaration_head(x);
    let mut tail = encode_variable_declaration_tail(x);
    let ghost hv = out@;
    let ghost tv = tail@;
    out.append(&mut tail);
    proof {
        lemma_jv_pairs(out@);
        lemma_jv_pairs(hv);
        lemma_jv_pairs(tv);
        assert(out@ == hv + tv);
        assert(jv_pairs(out@) =~= jv_pairs(hv) + jv_pairs(tv));
        assert(enc_variable_declaration(*x).take(9) + enc_variable_declaration(*x).skip(9)
            =~= enc_variable_declaration(*x));
    }
    out
}

/// Encodes the first half of a variable declaration's members.
#[verifier::rlimit(100)]
#[verifier::spinoff_prover]
fn encode_variable_declaration_head(x: &VariableDeclaration) -> (r: Vec<(String, JsonValue)>)
    ensures
        jv_pairs(r@) == crate::ast::shape::enc_variable_declaration_head(*x),
    decreases *x, 0int,
{
    let mut out: Vec<(String, JsonValue)> = Vec::new();
    let m0 = JsonValue::Int(x.id);
    proof {
        assert(jv(m0) == JsonV::Int(x.id as int));
    }
    let m1 = JsonValue::Str(x.name.clone());
    proof {
        assert(jv(m1) == JsonV::Str(x.name@));
    }
    let m2 = (match &x.typename {
        Some(v) => encode_type_name(v),
        None => JsonValue::Null,
    });
    proof {
        assert(jv(m2) == opt_type_name_of(x.typename));
    }
    let m3 = JsonValue::Str(encode_location(&x.src));
    proof {
        assert(jv(m3) == JsonV::Str(spec_encode_location(x.src)));
    }
    let m4 = (match &x.name_location {
        Some(s) => JsonValue::Str(s.clone()),
        None => JsonValue::Null,
    });
    proof {
        assert(jv(m4) == opt_str_of(x.name_location));
    }
    let m5 = JsonValue::Str(encode_vis(&x.visibility));
    proof {
        assert(jv(m5) == JsonV::Str(spell_vis(x.visibility)));
    }
    let m6 = (match &x.state_mutability {
        Some(v) => JsonValue::Str(encode_sm(v)),
        None => JsonValue::Null,
    });
    proof {
        assert(jv(m6) == opt_spell_sm_of(x.state_mutability));
    }
    let m7 = (match &x.mutability {
        Some(v) => JsonValue::Str(encode_mut(v)),
        None => JsonValue::Null,
    });
    proof {
        assert(jv(m7) == opt_spell_mut_of(x.mutability));
    }
    let m8 = (match &x.state_variable {
        Some(b) => JsonValue::Bool(*b),
        None => JsonValue::Null,
    });
    proof {
        assert(jv(m8) == opt_bool_of(x.state_variable));
    }
    out.push(("id".to_owned(), m0));
    out.push(("name".to_owned(), m1));
    out.push(("typeName".to_owned(), m2));
    out.push(("src".to_owned(), m3));
    out.push(("nameLocation".to_owned(), m4));
    out.push(("visibility".to_owned(), m5));
    out.push(("stateMutability".to_owned(), m6));
    out.push(("mutability".to_owned(), m7));
    out.push(("stateVariable".to_owned(), m8));
    proof {
        lemma_jv_pairs(out@);
        assert(jv_pairs(out@) =~~= crate::ast::shape::enc_variable_declaration_head(*x));
    }
    out
}

/// Encodes the second half of a variable declaration's members.
#[verifier::rlimit(100)]
#[verifier::spinoff_prover]
fn encode_variable_declaration_tail(x: &VariableDeclaration) -> (r: Vec<(String, JsonValue)>)
    ensures
        jv_pairs(r@) == crate::ast::shape::enc_variable_declaration_tail(*x),
    decreases *x, 0int,
{
    let mut out: Vec<(String, JsonValue)> = Vec::new();
    let m9 = (match &x.storage_location {
        Some(v) => JsonValue::Str(encode_sl(v)),
        None => JsonValue::Null,
    });
    proof {
        assert(jv(m9) == opt_spell_sl_of(x.storage_location));
    }
    let m10 = (match &x.constant {
        Some(b) => JsonValue::Bool(*b),
        None => JsonValue::Null,
    });
    proof {
        assert(jv(m10) == opt_bool_of(x.constant));
    }
    let m11 = (match &x.immutable {
        Some(b) => JsonValue::Bool(*b),
        None => JsonValue::Null,
    });
    proof {
        assert(jv(m11) == opt_bool_of(x.immutable));
    }
    let m12 = (match &x.indexed {
        Some(b) => JsonValue::Bool(*b),
        None => JsonValue::Null,
    });
    proof {
        assert(jv(m12) == opt_bool_of(x.indexed));
    }
    let m13 = (match &x.value {
        Some(v) => encode_expression(v),
        None => JsonValue::Null,
    });
    proof {
        assert(jv(m13) == opt_expr_of(x.value));
    }
    let m14 = (match &x.documentation {
        Some(v) => encode_documentation(v),
        None => JsonValue::Null,
    });
    proof {
        assert(jv(m14) == opt_doc_of(x.documentation));
    }
    let m15 = JsonValue::Obj(encode_type_descriptions(&x.type_descriptions));
    proof {
        assert(jv(m15) == JsonV::Obj(enc_type_descriptions(x.type_descriptions)));
    }
    let m16 = (match &x.overrides {
        Some(v) => JsonValue::Obj(encode_override_specifier(v)),
        None => JsonValue::Null,
    });
    proof {
        assert(jv(m16) == opt_override_specifier_of(x.overrides));
    }
    let m17 = (match &x.scope {
        Some(n) => JsonValue::Int(*n),
        None => JsonValue::Null,
    });
    proof {
        assert(jv(m17) == opt_int_of(x.scope));
    }
    out.push(("storageLocation".to_owned(), m9));
    out.push(("constant".to_owned(), m10));
    out.push(("immutable".to_owned(), m11));
    out.push(("indexed".to_owned(), m12));
    out.push(("value".to_owned(), m13));
    out.push(("documentation".to_owned(), m14));
    out.push(("typeDescriptions".to_owned(), m15));
    out.push(("overrides".to_owned(), m16));
    out.push(("scope".to_owned(), m17));
    proof {
        lemma_jv_pairs(out@);
        assert(jv_pairs(out@) =~~= crate::ast::shape::enc_variable_declaration_tail(*x));
    }
    out
}

/// Encodes a modifierInvocation record as its canonical members.
pub fn encode_modifier_invocation(x: &ModifierInvocation) -> (r: Vec<(String, JsonValue)>)
    ensures
        jv_pairs(r@) == enc_modifier_invocation(*x),
    decreases *x,
{
    let mut out: Vec<(String, JsonValue)> = Vec::new();
    out.push(("id".to_owned(), JsonValue::Int(x.id)));
    out.push(("kind".to_owned(), (match &x.kind {
        Some(v) => JsonValue::Str(encode_mik(v)),
        None => JsonValue::Null,
    })));
    out.push(("modifierName".to_owned(), JsonValue::Obj(encode_identifier_path(&x.modifier_name))));
    out.push(("arguments".to_owned(), (match &x.arguments {
        Some(v) => enc_vec_expr(v),
        None => JsonValue::Null,
    })));
    out.push(("src".to_owned(), JsonValue::Str(encode_location(&x.src))));
    proof {
        lemma_jv_pairs(out@);
        assert(jv_pairs(out@) =~~= enc_modifier_invocation(*x));
    }
    out
}

/// Encodes a functionDefinition record as its canonical members.
#[verifier::rlimit(100)]
#[verifier::spinoff_prover]
pub fn encode_function_definition(x: &FunctionDefinition) -> (r: Vec<(String, JsonValue)>)
    ensures
        jv_pairs(r@) == enc_function_definition(*x),
    decreases *x,
{
    let mut out: Vec<(String, JsonValue)> = Vec::new();
    out.push(("id".to_owned(), JsonValue::Int(x.id)));
    out.push(("name".to_owned(), JsonValue::Str(x.name.clone())));
    out.push(("virtual".to_owned(), JsonValue::Bool(x.is_virtual)));
    out.push(("kind".to_owned(), JsonValue::Str(encode_fk(&x.kind))));
    out.push(("visibility".to_owned(), JsonValue::Str(encode_vis(&x.visibility))));
    out.push(("stateMutability".to_owned(), JsonValue::Str(encode_sm(&x.state_mutability))));
    out.push(("body".to_owned(), (match &x.body {
        Some(v) => JsonValue::Obj(encode_block(v)),
        None => JsonValue::Null,
    })));
    out.push(("parameters".to_owned(), JsonValue::Obj(encode_parameter_list(&x.parameters))));
    out.push(("returnParameters".to_owned(), JsonValue::Obj(encode_parameter_list(&x.return_parameters))));
    out.push(("modifiers".to_owned(), enc_vec_modifier_invocation(&x.modifiers)));
    out.push(("src".to_owned(), JsonValue::Str(encode_location(&x.src))));
    out.push(("scope".to_owned(), JsonValue::Int(x.scope)));
    out.push(("implemented".to_owned(), JsonValue::Bool(x.implemented)));
    out.push(("documentation".to_owned(), (match &x.documentation {
        Some(v) => encode_documentation(v),
        None => JsonValue::Null,
    })));
    out.push(("overrides".to_owned(), (match &x.overrides {
        Some(v) => JsonValue::Obj(encode_override_specifier(v)),
        None => JsonValue::Null,
    })));
    out.push(("baseFunctions".to_owned(), (match &x.base_functions {
        Some(v) => enc_vec_i64(v),
        None => JsonValue::Null,
    })));
    out.push(("functionSelector".to_owned(), (match &x.function_selector {
        Some(s) => JsonValue::Str(s.clone()),
        None => JsonValue::Null,
    })));
    out.push(("nameLocation".to_owned(), (match &x.name_location {
        Some(s) => JsonValue::Str(s.clone()),
        None => JsonValue::Null,
    })));
    proof {
        lemma_jv_pairs(out@);
        assert(jv_pairs(out@)[0] == enc_function_definition(*x)[0]);
        assert(jv_pairs(out@)[1] == enc_function_definition(*x)[1]);
        assert(jv_pairs(out@)[2] == enc_function_definition(*x)[2]);
        assert(jv_pairs(out@)[3] == enc_function_definition(*x)[3]);
        assert(jv_pairs(out@)[4] == enc_function_definition(*x)[4]);
        assert(jv_pairs(out@)[5] == enc_function_definition(*x)[5]);
        assert(jv_pairs(out@)[6] == enc_function_definition(*x)[6]);
        assert(jv_pairs(out@)[7] == enc_function_definition(*x)[7]);
        assert(jv_pairs(out@)[8] == enc_function_definition(*x)[8]);
        assert(jv_pairs(out@)[9] == enc_function_definition(*x)[9]);
        assert(jv_pairs(out@)[10] == enc_function_definition(*x)[10]);
        assert(jv_pairs(out@)[11] == enc_function_definition(*x)[11]);
        assert(jv_pairs(out@)[12] == enc_function_definition(*x)[12]);
        assert(jv_pairs(out@)[13] == enc_function_definition(*x)[13]);
        assert(jv_pairs(out@)[14] == enc_function_definition(*x)[14]);
        assert(jv_pairs(out@)[15] == enc_function_definition(*x)[15]);
        assert(jv_pairs(out@)[16] == enc_function_definition(*x)[16]);
        assert(jv_pairs(out@)[17] == enc_function_definition(*x)[17]);
        assert(jv_pairs(out@) =~~= enc_function_definition(*x));
    }
    out
}

/// Encodes a modifierDefinition record as its canonical members.
pub fn encode_modifier_definition(x: &ModifierDefinition) -> (r: Vec<(String, JsonValue)>)
    ensures
        jv_pairs(r@) == enc_modifier_definition(*x),
    decreases *x,
{
    let mut out: Vec<(String, JsonValue)> = Vec::new();
    out.push(("id".to_owned(), JsonValue::Int(x.id)));
    out.push(("name".to_owned(), JsonValue::Str(x.name.clone())));
    out.push(("virtual".to_owned(), JsonValue::Bool(x.is_virtual)));
    out.push(("visibility".to_owned(), JsonValue::Str(encode_vis(&x.visibility))));
    out.push(("parameters".to_owned(), JsonValue::Obj(encode_parameter_list(&x.parameters))));
    out.push(("body".to_owned(), (match &x.body {
        Some(v) => JsonValue::Obj(encode_block(v)),
        None => JsonValue::Null,
    })));
    out.push(("src".to_owned(), JsonValue::Str(encode_location(&x.src))));
    out.push(("scope".to_owned(), (match &x.scope {
        Some(n) => JsonValue::Int(*n),
        None => JsonValue::Null,
    })));
    out.push(("documentation".to_owned(), (match &x.documentation {
        Some(v) => encode_documentation(v),
        None => JsonValue::Null,
    })));
    out.push(("overrides".to_owned(), (match &x.overrides {
        Some(v) => JsonValue::Obj(encode_override_specifier(v)),
        None => JsonValue::Null,
    })));
    proof {
        lemma_jv_pairs(out@);
        assert(jv_pairs(out@) =~~= enc_modifier_definition(*x));
    }
    out
}

/// Encodes a enumDefinition record as its canonical members.
pub fn encode_enum_definition(x: &EnumDefinition) -> (r: Vec<(String, JsonValue)>)
    ensures
        jv_pairs(r@) == enc_enum_definition(*x),
    decreases *x,
{
    let mut out: Vec<(String, JsonValue)> = Vec::new();
    out.push(("id".to_owned(), JsonValue::Int(x.id)));
    out.push(("name".to_owned(), JsonValue::Str(x.name.clone())));
    out.push(("members".to_owned(), enc_vec_enum_value(&x.members)));
    out.push(("src".to_owned(), JsonValue::Str(encode_location(&x.src))));
    out.push(("scope".to_owned(), (match &x.scope {
        Some(n) => JsonValue::Int(*n),
        None => JsonValue::Null,
    })));
    out.push(("documentation".to_owned(), (match &x.documentation {
        Some(v) => encode_documentation(v),
        None => JsonValue::Null,
    })));
    out.push(("canonicalName".to_owned(), (match &x.canonical_name {
        Some(s) => JsonValue::Str(s.clone()),
        None => JsonValue::Null,
    })));
    proof {
        lemma_jv_pairs(out@);
        assert(jv_pairs(out@) =~~= enc_enum_definition(*x));
    }
    out
}

/// Encodes a userDefinedValueTypeDefinition record as its canonical members.
pub fn encode_user_defined_value_type_definition(x: &UserDefinedValueTypeDefinition) -> (r: Vec<(String, JsonValue)>)
    ensures
        jv_pairs(r@) == enc_user_defined_value_type_definition(*x),
    decreases *x,
{
    let mut out: Vec<(String, JsonValue)> = Vec::new();
    out.push(("id".to_owned(), JsonValue::Int(x.id)));
    out.push(("name".to_owned(), JsonValue::Str(x.name.clone())));
    out.push(("src".to_owned(), JsonValue::Str(encode_location(&x.src))));
    out.push(("canonicalName".to_owned(), (match &x.canonical_name {
        Some(s) => JsonValue::Str(s.clone()),
        None => JsonValue::Null,
    })));
    out.push(("nameLocation".to_owned(), (match &x.name_location {
        Some(s) => JsonValue::Str(s.clone()),
        None => JsonValue::Null,
    })));
    out.push(("underlyingType".to_owned(), encode_type_name(&x.underlying_type)));
    proof {
        lemma_jv_pairs(out@);
        assert(jv_pairs(out@) =~~= enc_user_defined_value_type_definition(*x));
    }
    out
}

/// Encodes a errorDefinition record as its canonical members.
pub fn encode_error_definition(x: &ErrorDefinition) -> (r: Vec<(String, JsonValue)>)
    ensures
        jv_pairs(r@) == enc_error_definition(*x),
    decreases *x,
{
    let mut out: Vec<(String, JsonValue)> = Vec::new();
    out.push(("id".to_owned(), JsonValue::Int(x.id)));
    out.push(("name".to_owned(), JsonValue::Str(x.name.clone())));
    out.push(("parameters".to_owned(), JsonValue::Obj(encode_parameter_list(&x.parameters))));
    out.push(("src".to_owned(), JsonValue::Str(encode_location(&x.src))));
    out.push(("scope".to_owned(), (match &x.scope {
        Some(n) => JsonValue::Int(*n),
        None => JsonValue::Null,
    })));
    out.push(("documentation".to_owned(), (match &x.documentation {
        Some(v) => encode_documentation(v),
        None => JsonValue::Null,
    })));
    proof {
        lemma_jv_pairs(out@);
        assert(jv_pairs(out@) =~~= enc_error_definition(*x));
    }
    out
}

/// Encodes a eventDefinition record as its canonical members.
pub fn encode_event_definition(x: &EventDefinition) -> (r: Vec<(String, JsonValue)>)
    ensures
        jv_pairs(r@) == enc_event_definition(*x),
    decreases *x,
{
    let mut out: Vec<(String, JsonValue)> = Vec::new();
    out.push(("id".to_owned(), JsonValue::Int(x.id)));
    out.push(("name".to_owned(), JsonValue::Str(x.name.clone())));
    out.push(("anonymous".to_owned(), JsonValue::Bool(x.anonymous)));
    out.push(("eventSelector".to_owned(), (match &x.event_selector {
        Some(s) => JsonValue::Str(s.clone()),
        None => JsonValue::Null,
    })));
    out.push(("parameters".to_owned(), JsonValue::Obj(encode_parameter_list(&x.parameters))));
    out.push(("src".to_owned(), JsonValue::Str(encode_location(&x.src))));
    out.push(("scope".to_owned(), (match &x.scope {
        Some(n) => JsonValue::Int(*n),
        None => JsonValue::Null,
    })));
    out.push(("nameLocation".to_owned(), (match &x.name_location {
        Some(s) => JsonValue::Str(s.clone()),
        None => JsonValue::Null,
    })));
    out.push(("documentation".to_owned(), (match &x.documentation {
        Some(v) => encode_documentation(v),
        None => JsonValue::Null,
    })));
    proof {
        lemma_jv_pairs(out@);
        assert(jv_pairs(out@) =~~= enc_event_definition(*x));
    }
    out
}

/// Encodes a structDefinition record as its canonical members.
pub fn encode_struct_definition(x: &StructDefinition) -> (r: Vec<(String, JsonValue)>)
    ensures
        jv_pairs(r@) == enc_struct_definition(*x),
    decreases *x,
{
    let mut out: Vec<(String, JsonValue)> = Vec::new();
    out.push(("id".to_owned(), JsonValue::Int(x.id)));
    out.push(("name".to_owned(), JsonValue::Str(x.name.clone())));
    out.push(("members".to_owned(), enc_vec_variable_declaration(&x.members)));
    out.push(("src".to_owned(), JsonValue::Str(encode_location(&x.src))));
    out.push(("scope".to_owned(), (match &x.scope {
        Some(n) => JsonValue::Int(*n),
        None => JsonValue::Null,
    })));
    out.push(("documentation".to_owned(), (match &x.documentation {
        Some(v) => encode_documentation(v),
        None => JsonValue::Null,
    })));
    out.push(("canonicalName".to_owned(), (match &x.canonical_name {
        Some(s) => JsonValue::Str(s.clone()),
        None => JsonValue::Null,
    })));
    out.push(("usedInEvents".to_owned(), (match &x.used_in_events {
        Some(b) => JsonValue::Bool(*b),
        None => JsonValue::Null,
    })));
    proof {
        lemma_jv_pairs(out@);
        assert(jv_pairs(out@) =~~= enc_struct_definition(*x));
    }
    out
}

/// Encodes a inheritanceSpecifier record as its canonical members.
pub fn encode_inheritance_specifier(x: &InheritanceSpecifier) -> (r: Vec<(String, JsonValue)>)
    ensures
        jv_pairs(r@) == enc_inheritance_specifier(*x),
    decreases *x,
{
    let mut out: Vec<(String, JsonValue)> = Vec::new();
    out.push(("id".to_owned(), JsonValue::Int(x.id)));
    out.push(("baseName".to_owned(), JsonValue::Obj(encode_identifier_path(&x.base_name))));
    out.push(("arguments".to_owned(), (match &x.arguments {
        Some(v) => enc_vec_expr(v),
        None => JsonValue::Null,
    })));
    out.push(("src".to_owned(), JsonValue::Str(encode_location(&x.src))));
    proof {
        lemma_jv_pairs(out@);
        assert(jv_pairs(out@) =~~= enc_inheritance_specifier(*x));
    }
    out
}

/// Encodes a usingForDirective record as its canonical members.
pub fn encode_using_for_directive(x: &UsingForDirective) -> (r: Vec<(String, JsonValue)>)
    ensures
        jv_pairs(r@) == enc_using_for_directive(*x),
{
    let mut out: Vec<(String, JsonValue)> = Vec::new();
    out.push(("id".to_owned(), JsonValue::Int(x.id)));
    out.push(("libraryName".to_owned(), (match &x.library_name {
        Some(v) => JsonValue::Obj(encode_identifier_path(v)),
        None => JsonValue::Null,
    })));
    out.push(("typeName".to_owned(), (match &x.typename {
        Some(v) => JsonValue::Obj(encode_user_defined_type_name(v)),
        None => JsonValue::Null,
    })));
    out.push(("operations".to_owned(), (match &x.operations {
        Some(v) => enc_vec_str(v),
        None => JsonValue::Null,
    })));
    out.push(("src".to_owned(), JsonValue::Str(encode_location(&x.src))));
    out.push(("global".to_owned(), (match &x.global {
        Some(b) => JsonValue::Bool(*b),
        None => JsonValue::Null,
    })));
    out.push(("scope".to_owned(), (match &x.scope {
        Some(n) => JsonValue::Int(*n),
        None => JsonValue::Null,
    })));
    proof {
        lemma_jv_pairs(out@);
        assert(jv_pairs(out@) =~~= enc_using_for_directive(*x));
    }
    out
}

/// Encodes a importDirective record as its canonical members.
pub fn encode_import_directive(x: &ImportDirective) -> (r: Vec<(String, JsonValue)>)
    ensures
        jv_pairs(r@) == enc_import_directive(*x),
{
    let mut out: Vec<(String, JsonValue)> = Vec::new();
    out.push(("id".to_owned(), JsonValue::Int(x.id)));
    out.push(("absolutePath".to_owned(), JsonValue::Str(x.absolute_path.clone())));
    out.push(("file".to_owned(), JsonValue::Str(x.file.clone())));
    out.push(("unitAlias".to_owned(), (match &x.unit_alias {
        Some(s) => JsonValue::Str(s.clone()),
        None => JsonValue::Null,
    })));
    out.push(("symbolAliases".to_owned(), enc_vec_symbol_alias(&x.symbol_aliases)));
    out.push(("scope".to_owned(), (match &x.scope {
        Some(n) => JsonValue::Int(*n),
        None => JsonValue::Null,
    })));
    out.push(("sourceUnit".to_owned(), (match &x.source_unit {
        Some(n) => JsonValue::Int(*n),
        None => JsonValue::Null,
    })));
    out.push(("src".to_owned(), JsonValue::Str(encode_location(&x.src))));
    out.push(("nameLocation".to_owned(), (match &x.name_location {
        Some(s) => JsonValue::Str(s.clone()),
        None => JsonValue::Null,
    })));
    proof {
        lemma_jv_pairs(out@);
        assert(jv_pairs(out@) =~~= enc_import_directive(*x));
    }
    out
}

/// Encodes a pragmaDirective record as its canonical members.
pub fn encode_pragma_directive(x: &PragmaDirective) -> (r: Vec<(String, JsonValue)>)
    ensures
        jv_pairs(r@) == enc_pragma_directive(*x),
{
    let mut out: Vec<(String, JsonValue)> = Vec::new();
    out.push(("id".to_owned(), JsonValue::Int(x.id)));
    out.push(("literals".to_owned(), enc_vec_str(&x.literals)));
    out.push(("src".to_owned(), JsonValue::Str(encode_location(&x.src))));
    proof {
        lemma_jv_pairs(out@);
        assert(jv_pairs(out@) =~~= enc_pragma_directive(*x));
    }
    out
}

/// Encodes a contractDefinition record as its canonical members.
#[verifier::rlimit(100)]
#[verifier::spinoff_prover]
pub fn encode_contract_definition(x: &ContractDefinition) -> (r: Vec<(String, JsonValue)>)
    ensures
        jv_pairs(r@) == enc_contract_definition(*x),
    decreases *x,
{
    let mut out: Vec<(String, JsonValue)> = Vec::new();
    out.push(("id".to_owned(), JsonValue::Int(x.id)));
    out.push(("name".to_owned(), JsonValue::Str(x.name.clone())));
    out.push(("contractKind".to_owned(), JsonValue::Str(encode_ck(&x.contract_kind))));
    out.push(("abstract".to_owned(), JsonValue::Bool(x.is_abstract)));
    out.push(("fullyImplemented".to_owned(), JsonValue::Bool(x.fully_implemented)));
    out.push(("linearizedBaseContracts".to_owned(), enc_vec_i64(&x.linearized_base_contracts)));
    out.push(("nodes".to_owned(), enc_vec_contract_node(&x.nodes)));
    out.push(("scope".to_owned(), (match &x.scope {
        Some(n) => JsonValue::Int(*n),
        None => JsonValue::Null,
    })));
    out.push(("src".to_owned(), JsonValue::Str(encode_location(&x.src))));
    out.push(("documentation".to_owned(), (match &x.documentation {
        Some(v) => encode_documentation(v),
        None => JsonValue::Null,
    })));
    out.push(("baseContracts".to_owned(), (match &x.base_contracts {
        Some(v) => enc_vec_inheritance_specifier(v),
        None => JsonValue::Null,
    })));
    out.push(("canonicalName".to_owned(), (match &x.canonical_name {
        Some(s) => JsonValue::Str(s.clone()),
        None => JsonValue::Null,
    })));
    out.push(("contractDependencies".to_owned(), (match &x.contract_dependencies {
        Some(v) => enc_vec_i64(v),
        None => JsonValue::Null,
    })));
    out.push(("nameLocation".to_owned(), (match &x.name_location {
        Some(s) => JsonValue::Str(s.clone()),
        None => JsonValue::Null,
    })));
    out.push(("usedErrors".to_owned(), (match &x.used_errors {
        Some(v) => enc_vec_i64(v),
        None => JsonValue::Null,
    })));
    out.push(("usedEvents".to_owned(), (match &x.used_events {
        Some(v) => enc_vec_i64(v),
        None => JsonValue::Null,
    })));
    proof {
        lemma_jv_pairs(out@);
        assert(jv_pairs(out@)[0] == enc_contract_definition(*x)[0]);
        assert(jv_pairs(out@)[1] == enc_contract_definition(*x)[1]);
        assert(jv_pairs(out@)[2] == enc_contract_definition(*x)[2]);
        assert(jv_pairs(out@)[3] == enc_contract_definition(*x)[3]);
        assert(jv_pairs(out@)[4] == enc_contract_definition(*x)[4]);
        assert(jv_pairs(out@)[5] == enc_contract_definition(*x)[5]);
        assert(jv_pairs(out@)[6] == enc_contract_definition(*x)[6]);
        assert(jv_pairs(out@)[7] == enc_contract_definition(*x)[7]);
        assert(jv_pairs(out@)[8] == enc_contract_definition(*x)[8]);
        assert(jv_pairs(out@)[9] == enc_contract_definition(*x)[9]);
        assert(jv_pairs(out@)[10] == enc_contract_definition(*x)[10]);
        assert(jv_pairs(out@)[11] == enc_contract_definition(*x)[11]);
        assert(jv_pairs(out@)[12] == enc_contract_definition(*x)[12]);
        assert(jv_pairs(out@)[13] == enc_contract_definition(*x)[13]);
        assert(jv_pairs(out@)[14] == enc_contract_definition(*x)[14]);
        assert(jv_pairs(out@)[15] == enc_contract_definition(*x)[15]);
        assert(jv_pairs(out@) =~~= enc_contract_definition(*x));
    }
    out
}

/// Encodes a sourceUnit record as its canonical members.
pub fn encode_source_unit(x: &SourceUnit) -> (r: Vec<(String, JsonValue)>)
    ensures
        jv_pairs(r@) == enc_source_unit(*x),
    decreases *x,
{
    let mut out: Vec<(String, JsonValue)> = Vec::new();
    out.push(("id".to_owned(), JsonValue::Int(x.id)));
    out.push(("absolutePath".to_owned(), JsonValue::Str(x.absolute_path.clone())));
    out.push(("exportedSymbols".to_owned(), enc_map_i64(&x.exported_symbols)));
    out.push(("src".to_owned(), JsonValue::Str(encode_location(&x.src))));
    out.push(("nodes".to_owned(), enc_vec_source_unit_node(&x.nodes)));
    out.push(("license".to_owned(), (match &x.license {
        Some(s) => JsonValue::Str(s.clone()),
        None => JsonValue::Null,
    })));
    proof {
        lemma_jv_pairs(out@);
        assert(jv_pairs(out@) =~~= enc_source_unit(*x));
    }
    out
}

/// Encodes a expression node in canonical form.
pub fn encode_expression(e: &Expression) -> (r: JsonValue)
    ensures
        jv(r) == enc_expr(*e),
    decreases *e,
{
    match e {
        Expression::Assignment(b) => {
            let fields = encode_assignment(b);
            let ghost fv = fields@;
            let mut out: Vec<(String, JsonValue)> = Vec::new();
            out.push(("nodeType".to_owned(), JsonValue::Str("Assignment".to_owned())));
            let mut fs = fields;
            out.append(&mut fs);
            proof {
                lemma_jv_pairs(out@);
                lemma_jv_pairs(fv);
                assert(out@ == seq![out@[0]] + fv);
                assert(jv_pairs(out@) =~~= seq![("nodeType"@, JsonV::Str("Assignment"@))]
                    + enc_assignment(**b));
            }
            JsonValue::Obj(out)
        },
        Expression::BinaryOperation(b) => {
            let fields = encode_binary_operation(b);
            let ghost fv = fields@;
            let mut out: Vec<(String, JsonValue)> = Vec::new();
            out.push(("nodeType".to_owned(), JsonValue::Str("BinaryOperation".to_owned())));
            let mut fs = fields;
            out.append(&mut fs);
            proof {
                lemma_jv_pairs(out@);
                lemma_jv_pairs(fv);
                assert(out@ == seq![out@[0]] + fv);
                assert(jv_pairs(out@) =~~= seq![("nodeType"@, JsonV::Str("BinaryOperation"@))]
                    + enc_binary_operation(**b));
            }
            JsonValue::Obj(out)
        },
        Expression::Conditional(b) => {
            let fields = encode_conditional(b);
            let ghost fv = fields@;
            let mut out: Vec<(String, JsonValue)> = Vec::new();
            out.push(("nodeType".to_owned(), JsonValue::Str("Conditional".to_owned())));
            let mut fs = fields;
            out.append(&mut fs);
            proof {
                lemma_jv_pairs(out@);
                lemma_jv_pairs(fv);
                assert(out@ == seq![out@[0]] + fv);
                assert(jv_pairs(out@) =~~= seq![("nodeType"@, JsonV::Str("Conditional"@))]
                    + enc_conditional(**b));
            }
            JsonValue::Obj(out)
        },
        Expression::ElementaryTypeNameExpression(b) => {
            let fields = encode_elementary_type_name_expression(b);
            let ghost fv = fields@;
            let mut out: Vec<(String, JsonValue)> = Vec::new();
            out.push(("nodeType".to_owned(), JsonValue::Str("ElementaryTypeNameExpression".to_owned())));
            let mut fs = fields;
            out.append(&mut fs);
            proof {
                lemma_jv_pairs(out@);
                lemma_jv_pairs(fv);
                assert(out@ == seq![out@[0]] + fv);
                assert(jv_pairs(out@) =~~= seq![("nodeType"@, JsonV::Str("ElementaryTypeNameExpression"@))]
                    + enc_elementary_type_name_expression(**b));
            }
            JsonValue::Obj(out)
        },
        Expression::FunctionCall(b) => {
            let fields = encode_function_call(b);
            let ghost fv = fields@;
            let mut out: Vec<(String, JsonValue)> = Vec::new();
            out.push(("nodeType".to_owned(), JsonValue::Str("FunctionCall".to_owned())));
            let mut fs = fields;
            out.append(&mut fs);
            proof {
                lemma_jv_pairs(out@);
                lemma_jv_pairs(fv);
                assert(out@ == seq![out@[0]] + fv);
                assert(jv_pairs(out@) =~~= seq![("nodeType"@, JsonV::Str("FunctionCall"@))]
                    + enc_function_call(**b));
            }
            JsonValue::Obj(out)
        },
        Expression::Identifier(b) => {
            let fields = encode_identifier(b);
            JsonValue::Obj(fields)
        },
        Expression::IndexAccess(b) => {
            let fields = encode_index_access(b);
            let ghost fv = fields@;
            let mut out: Vec<(String, JsonValue)> = Vec::new();
            out.push(("nodeType".to_owned(), JsonValue::Str("IndexAccess".to_owned())));
            let mut fs = fields;
            out.append(&mut fs);
            proof {
                lemma_jv_pairs(out@);
                lemma_jv_pairs(fv);
                assert(out@ == seq![out@[0]] + fv);
                assert(jv_pairs(out@) =~~= seq![("nodeType"@, JsonV::Str("IndexAccess"@))]
                    + enc_index_access(**b));
            }
            JsonValue::Obj(out)
        },
        Expression::Literal(b) => {
            let fields = encode_literal(b);
            let ghost fv = fields@;
            let mut out: Vec<(String, JsonValue)> = Vec::new();
            out.push(("nodeType".to_owned(), JsonValue::Str("Literal".to_owned())));
            let mut fs = fields;
            out.append(&mut fs);
            proof {
                lemma_jv_pairs(out@);
                lemma_jv_pairs(fv);
                assert(out@ == seq![out@[0]] + fv);
                assert(jv_pairs(out@) =~~= seq![("nodeType"@, JsonV::Str("Literal"@))]
                    + enc_literal(**b));
            }
            JsonValue::Obj(out)
        },
        Expression::MemberAccess(b) => {
            let fields = encode_member_access(b);
            let ghost fv = fields@;
            let mut out: Vec<(String, JsonValue)> = Vec::new();
            out.push(("nodeType".to_owned(), JsonValue::Str("MemberAccess".to_owned())));
            let mut fs = fields;
            out.append(&mut fs);
            proof {
                lemma_jv_pairs(out@);
                lemma_jv_pairs(fv);
                assert(out@ == seq![out@[0]] + fv);
                assert(jv_pairs(out@) =~~= seq![("nodeType"@, JsonV::Str("MemberAccess"@))]
                    + enc_member_access(**b));
            }
            JsonValue::Obj(out)
        },
        Expression::NewExpression(b) => {
            let fields = encode_new_expression(b);
            let ghost fv = fields@;
            let mut out: Vec<(String, JsonValue)> = Vec::new();
            out.push(("nodeType".to_owned(), JsonValue::Str("NewExpression".to_owned())));
            let mut fs = fields;
            out.append(&mut fs);
            proof {
                lemma_jv_pairs(out@);
                lemma_jv_pairs(fv);
                assert(out@ == seq![out@[0]] + fv);
                assert(jv_pairs(out@) =~~= seq![("nodeType"@, JsonV::Str("NewExpression"@))]
                    + enc_new_expression(**b));
            }
            JsonValue::Obj(out)
        },
        Expression::TupleExpression(b) => {
            let fields = encode_tuple_expression(b);
            let ghost fv = fields@;
            let mut out: Vec<(String, JsonValue)> = Vec::new();
            out.push(("nodeType".to_owned(), JsonValue::Str("TupleExpression".to_owned())));
            let mut fs = fields;
            out.append(&mut fs);
            proof {
                lemma_jv_pairs(out@);
                lemma_jv_pairs(fv);
                assert(out@ == seq![out@[0]] + fv);
                assert(jv_pairs(out@) =~~= seq![("nodeType"@, JsonV::Str("TupleExpression"@))]
                    + enc_tuple_expression(**b));
            }
            JsonValue::Obj(out)
        },
        Expression::UnaryOperation(b) => {
            let fields = encode_unary_operation(b);
            let ghost fv = fields@;
            let mut out: Vec<(String, JsonValue)> = Vec::new();
            out.push(("nodeType".to_owned(), JsonValue::Str("UnaryOperation".to_owned())));
            let mut fs = fields;
            out.append(&mut fs);
            proof {
                lemma_jv_pairs(out@);
                lemma_jv_pairs(fv);
                assert(out@ == seq![out@[0]] + fv);
                assert(jv_pairs(out@) =~~= seq![("nodeType"@, JsonV::Str("UnaryOperation"@))]
                    + enc_unary_operation(**b));
            }
            JsonValue::Obj(out)
        },
        Expression::VariableDeclarationStatement(b) => {
            let fields = encode_variable_declaration_statement(b);
            let ghost fv = fields@;
            let mut out: Vec<(String, JsonValue)> = Vec::new();
            out.push(("nodeType".to_owned(), JsonValue::Str("VariableDeclarationStatement".to_owned())));
            let mut fs = fields;
            out.append(&mut fs);
            proof {
                lemma_jv_pairs(out@);
                lemma_jv_pairs(fv);
                assert(out@ == seq![out@[0]] + fv);
                assert(jv_pairs(out@) =~~= seq![("nodeType"@, JsonV::Str("VariableDeclarationStatement"@))]
                    + enc_variable_declaration_statement(**b));
            }
            JsonValue::Obj(out)
        },
        Expression::ExpressionStatement(b) => {
            let fields = encode_expression_statement(b);
            let ghost fv = fields@;
            let mut out: Vec<(String, JsonValue)> = Vec::new();
            out.push(("nodeType".to_owned(), JsonValue::Str("ExpressionStatement".to_owned())));
            let mut fs = fields;
            out.append(&mut fs);
            proof {
                lemma_jv_pairs(out@);
                lemma_jv_pairs(fv);
                assert(out@ == seq![out@[0]] + fv);
                assert(jv_pairs(out@) =~~= seq![("nodeType"@, JsonV::Str("ExpressionStatement"@))]
                    + enc_expression_statement(**b));
            }
            JsonValue::Obj(out)
        },
    }
}

/// Encodes a statement node in canonical form.
pub fn encode_statement(e: &Statement) -> (r: JsonValue)
    ensures
        jv(r) == enc_stmt(*e),
    decreases *e,
{
    match e {
        Statement::Block(b) => {
            let fields = encode_block(b);
            let ghost fv = fields@;
            let mut out: Vec<(String, JsonValue)> = Vec::new();
            out.push(("nodeType".to_owned(), JsonValue::Str("Block".to_owned())));
            let mut fs = fields;
            out.append(&mut fs);
            proof {
                lemma_jv_pairs(out@);
                lemma_jv_pairs(fv);
                assert(out@ == seq![out@[0]] + fv);
                assert(jv_pairs(out@) =~~= seq![("nodeType"@, JsonV::Str("Block"@))]
                    + enc_block(**b));
            }
            JsonValue::Obj(out)
        },
        Statement::Break(b) => {
            let fields = encode_break_statement(b);
            let ghost fv = fields@;
            let mut out: Vec<(String, JsonValue)> = Vec::new();
            out.push(("nodeType".to_owned(), JsonValue::Str("Break".to_owned())));
            let mut fs = fields;
            out.append(&mut fs);
            proof {
                lemma_jv_pairs(out@);
                lemma_jv_pairs(fv);
                assert(out@ == seq![out@[0]] + fv);
                assert(jv_pairs(out@) =~~= seq![("nodeType"@, JsonV::Str("Break"@))]
                    + enc_break_statement(**b));
            }
            JsonValue::Obj(out)
        },
        Statement::Continue(b) => {
            let fields = encode_continue_statement(b);
            let ghost fv = fields@;
            let mut out: Vec<(String, JsonValue)> = Vec::new();
            out.push(("nodeType".to_owned(), JsonValue::Str("Continue".to_owned())));
            let mut fs = fields;
            out.append(&mut fs);
            proof {
                lemma_jv_pairs(out@);
                lemma_jv_pairs(fv);
                assert(out@ == seq![out@[0]] + fv);
                assert(jv_pairs(out@) =~~= seq![("nodeType"@, JsonV::Str("Continue"@))]
                    + enc_continue_statement(**b));
            }
            JsonValue::Obj(out)
        },
        Statement::DoWhileStatement(b) => {
            let fields = encode_do_while_statement(b);
            let ghost fv = fields@;
            let mut out: Vec<(String, JsonValue)> = Vec::new();
            out.push(("nodeType".to_owned(), JsonValue::Str("DoWhileStatement".to_owned())));
            let mut fs = fields;
            out.append(&mut fs);
            proof {
                lemma_jv_pairs(out@);
                lemma_jv_pairs(fv);
                assert(out@ == seq![out@[0]] + fv);
                assert(jv_pairs(out@) =~~= seq![("nodeType"@, JsonV::Str("DoWhileStatement"@))]
                    + enc_do_while_statement(**b));
            }
            JsonValue::Obj(out)
        },
        Statement::EmitStatement(b) => {
            let fields = encode_emit_statement(b);
            let ghost fv = fields@;
            let mut out: Vec<(String, JsonValue)> = Vec::new();
            out.push(("nodeType".to_owned(), JsonValue::Str("EmitStatement".to_owned())));
            let mut fs = fields;
            out.append(&mut fs);
            proof {
                lemma_jv_pairs(out@);
                lemma_jv_pairs(fv);
                assert(out@ == seq![out@[0]] + fv);
                assert(jv_pairs(out@) =~~= seq![("nodeType"@, JsonV::Str("EmitStatement"@))]
                    + enc_emit_statement(**b));
            }
            JsonValue::Obj(out)
        },
        Statement::ExpressionStatement(b) => {
            let fields = encode_expression_statement(b);
            let ghost fv = fields@;
            let mut out: Vec<(String, JsonValue)> = Vec::new();
            out.push(("nodeType".to_owned(), JsonValue::Str("ExpressionStatement".to_owned())));
            let mut fs = fields;
            out.append(&mut fs);
            proof {
                lemma_jv_pairs(out@);
                lemma_jv_pairs(fv);
                assert(out@ == seq![out@[0]] + fv);
                assert(jv_pairs(out@) =~~= seq![("nodeType"@, JsonV::Str("ExpressionStatement"@))]
                    + enc_expression_statement(**b));
            }
            JsonValue::Obj(out)
        },
        Statement::ForStatement(b) => {
            let fields = encode_for_statement(b);
            let ghost fv = fields@;
            let mut out: Vec<(String, JsonValue)> = Vec::new();
            out.push(("nodeType".to_owned(), JsonValue::Str("ForStatement".to_owned())));
            let mut fs = fields;
            out.append(&mut fs);
            proof {
                lemma_jv_pairs(out@);
                lemma_jv_pairs(fv);
                assert(out@ == seq![out@[0]] + fv);
                assert(jv_pairs(out@) =~~= seq![("nodeType"@, JsonV::Str("ForStatement"@))]
                    + enc_for_statement(**b));
            }
            JsonValue::Obj(out)
        },
        Statement::IfStatement(b) => {
            let fields = encode_if_statement(b);
            let ghost fv = fields@;
            let mut out: Vec<(String, JsonValue)> = Vec::new();
            out.push(("nodeType".to_owned(), JsonValue::Str("IfStatement".to_owned())));
            let mut fs = fields;
            out.append(&mut fs);
            proof {
                lemma_jv_pairs(out@);
                lemma_jv_pairs(fv);
                assert(out@ == seq![out@[0]] + fv);
                assert(jv_pairs(out@) =~~= seq![("nodeType"@, JsonV::Str("IfStatement"@))]
                    + enc_if_statement(**b));
            }
            JsonValue::Obj(out)
        },
        Statement::InlineAssembly(b) => {
            let fields = encode_inline_assembly(b);
            let ghost fv = fields@;
            let mut out: Vec<(String, JsonValue)> = Vec::new();
            out.push(("nodeType".to_owned(), JsonValue::Str("InlineAssembly".to_owned())));
            let mut fs = fields;
            out.append(&mut fs);
            proof {
                lemma_jv_pairs(out@);
                lemma_jv_pairs(fv);
                assert(out@ == seq![out@[0]] + fv);
                assert(jv_pairs(out@) =~~= seq![("nodeType"@, JsonV::Str("InlineAssembly"@))]
                    + enc_inline_assembly(**b));
            }
            JsonValue::Obj(out)
        },
        Statement::PlaceholderStatement(b) => {
            let fields = encode_placeholder_statement(b);
            let ghost fv = fields@;
            let mut out: Vec<(String, JsonValue)> = Vec::new();
            out.push(("nodeType".to_owned(), JsonValue::Str("PlaceholderStatement".to_owned())));
            let mut fs = fields;
            out.append(&mut fs);
            proof {
                lemma_jv_pairs(out@);
                lemma_jv_pairs(fv);
                assert(out@ == seq![out@[0]] + fv);
                assert(jv_pairs(out@) =~~= seq![("nodeType"@, JsonV::Str("PlaceholderStatement"@))]
                    + enc_placeholder_statement(**b));
            }
            JsonValue::Obj(out)
        },
        Statement::Return(b) => {
            let fields = encode_return_statement(b);
            let ghost fv = fields@;
            let mut out: Vec<(String, JsonValue)> = Vec::new();
            out.push(("nodeType".to_owned(), JsonValue::Str("Return".to_owned())));
            let mut fs = fields;
            out.append(&mut fs);
            proof {
                lemma_jv_pairs(out@);
                lemma_jv_pairs(fv);
                assert(out@ == seq![out@[0]] + fv);
                assert(jv_pairs(out@) =~~= seq![("nodeType"@, JsonV::Str("Return"@))]
                    + enc_return_statement(**b));
            }
            JsonValue::Obj(out)
        },
        Statement::RevertStatement(b) => {
            let fields = encode_revert_statement(b);
            let ghost fv = fields@;
            let mut out: Vec<(String, JsonValue)> = Vec::new();
            out.push(("nodeType".to_owned(), JsonValue::Str("RevertStatement".to_owned())));
            let mut fs = fields;
            out.append(&mut fs);
            proof {
                lemma_jv_pairs(out@);
                lemma_jv_pairs(fv);
                assert(out@ == seq![out@[0]] + fv);
                assert(jv_pairs(out@) =~~= seq![("nodeType"@, JsonV::Str("RevertStatement"@))]
                    + enc_revert_statement(**b));
            }
            JsonValue::Obj(out)
        },
        Statement::TryStatement(b) => {
            let fields = encode_try_statement(b);
            let ghost fv = fields@;
            let mut out: Vec<(String, JsonValue)> = Vec::new();
            out.push(("nodeType".to_owned(), JsonValue::Str("TryStatement".to_owned())));
            let mut fs = fields;
            out.append(&mut fs);
            proof {
                lemma_jv_pairs(out@);
                lemma_jv_pairs(fv);
                assert(out@ == seq![out@[0]] + fv);
                assert(jv_pairs(out@) =~~= seq![("nodeType"@, JsonV::Str("TryStatement"@))]
                    + enc_try_statement(**b));
            }
            JsonValue::Obj(out)
        },
        Statement::UncheckedBlock(b) => {
            let fields = encode_unchecked_block(b);
            let ghost fv = fields@;
            let mut out: Vec<(String, JsonValue)> = Vec::new();
            out.push(("nodeType".to_owned(), JsonValue::Str("UncheckedBlock".to_owned())));
            let mut fs = fields;
            out.append(&mut fs);
            proof {
                lemma_jv_pairs(out@);
                lemma_jv_pairs(fv);
                assert(out@ == seq![out@[0]] + fv);
                assert(jv_pairs(out@) =~~= seq![("nodeType"@, JsonV::Str("UncheckedBlock"@))]
                    + enc_unchecked_block(**b));
            }
            JsonValue::Obj(out)
        },
        Statement::VariableDeclarationStatement(b) => {
            let fields = encode_variable_declaration_statement(b);
            let ghost fv = fields@;
            let mut out: Vec<(String, JsonValue)> = Vec::new();
            out.push(("nodeType".to_owned(), JsonValue::Str("VariableDeclarationStatement".to_owned())));
            let mut fs = fields;
            out.append(&mut fs);
            proof {
                lemma_jv_pairs(out@);
                lemma_jv_pairs(fv);
                assert(out@ == seq![out@[0]] + fv);
                assert(jv_pairs(out@) =~~= seq![("nodeType"@, JsonV::Str("VariableDeclarationStatement"@))]
                    + enc_variable_declaration_statement(**b));
            }
            JsonValue::Obj(out)
        },
        Statement::WhileStatement(b) => {
            let fields = encode_while_statement(b);
            let ghost fv = fields@;
            let mut out: Vec<(String, JsonValue)> = Vec::new();
            out.push(("nodeType".to_owned(), JsonValue::Str("WhileStatement".to_owned())));
            let mut fs = fields;
            out.append(&mut fs);
            proof {
                lemma_jv_pairs(out@);
                lemma_jv_pairs(fv);
                assert(out@ == seq![out@[0]] + fv);
                assert(jv_pairs(out@) =~~= seq![("nodeType"@, JsonV::Str("WhileStatement"@))]
                    + enc_while_statement(**b));
            }
            JsonValue::Obj(out)
        },
    }
}

/// Encodes a typeName node in canonical form.
pub fn encode_type_name(e: &TypeName) -> (r: JsonValue)
    ensures
        jv(r) == enc_type_name(*e),
    decreases *e,
{
    match e {
        TypeName::ArrayTypeName(b) => {
            let fields = encode_array_type_name(b);
            let ghost fv = fields@;
            let mut out: Vec<(String, JsonValue)> = Vec::new();
            out.push(("nodeType".to_owned(), JsonValue::Str("ArrayTypeName".to_owned())));
            let mut fs = fields;
            out.append(&mut fs);
            proof {
                lemma_jv_pairs(out@);
                lemma_jv_pairs(fv);
                assert(out@ == seq![out@[0]] + fv);
                assert(jv_pairs(out@) =~~= seq![("nodeType"@, JsonV::Str("ArrayTypeName"@))]
                    + enc_array_type_name(**b));
            }
            JsonValue::Obj(out)
        },
        TypeName::ElementaryTypeName(b) => {
            let fields = encode_elementary_type_name(b);
            JsonValue::Obj(fields)
        },
        TypeName::FunctionTypeName(b) => {
            let fields = encode_function_type_name(b);
            let ghost fv = fields@;
            let mut out: Vec<(String, JsonValue)> = Vec::new();
            out.push(("nodeType".to_owned(), JsonValue::Str("FunctionTypeName".to_owned())));
            let mut fs = fields;
            out.append(&mut fs);
            proof {
                lemma_jv_pairs(out@);
                lemma_jv_pairs(fv);
                assert(out@ == seq![out@[0]] + fv);
                assert(jv_pairs(out@) =~~= seq![("nodeType"@, JsonV::Str("FunctionTypeName"@))]
                    + enc_function_type_name(**b));
            }
            JsonValue::Obj(out)
        },
        TypeName::Mapping(b) => {
            let fields = encode_mapping(b);
            let ghost fv = fields@;
            let mut out: Vec<(String, JsonValue)> = Vec::new();
            out.push(("nodeType".to_owned(), JsonValue::Str("Mapping".to_owned())));
            let mut fs = fields;
            out.append(&mut fs);
            proof {
                lemma_jv_pairs(out@);
                lemma_jv_pairs(fv);
                assert(out@ == seq![out@[0]] + fv);
                assert(jv_pairs(out@) =~~= seq![("nodeType"@, JsonV::Str("Mapping"@))]
                    + enc_mapping(**b));
            }
            JsonValue::Obj(out)
        },
        TypeName::UserDefinedTypeName(b) => {
            let fields = encode_user_defined_type_name(b);
            let ghost fv = fields@;
            let mut out: Vec<(String, JsonValue)> = Vec::new();
            out.push(("nodeType".to_owned(), JsonValue::Str("UserDefinedTypeName".to_owned())));
            let mut fs = fields;
            out.append(&mut fs);
            proof {
                lemma_jv_pairs(out@);
                lemma_jv_pairs(fv);
                assert(out@ == seq![out@[0]] + fv);
                assert(jv_pairs(out@) =~~= seq![("nodeType"@, JsonV::Str("UserDefinedTypeName"@))]
                    + enc_user_defined_type_name(**b));
            }
            JsonValue::Obj(out)
        },
    }
}

/// Encodes a functionCallExpression node in canonical form.
pub fn encode_function_call_expression(e: &FunctionCallExpression) -> (r: JsonValue)
    ensures
        jv(r) == enc_function_call_expression(*e),
    decreases *e,
{
    match e {
        FunctionCallExpression::ElementaryTypeNameExpression(b) => {
            let fields = encode_elementary_type_name_expression(b);
            let ghost fv = fields@;
            let mut out: Vec<(String, JsonValue)> = Vec::new();
            out.push(("nodeType".to_owned(), JsonValue::Str("ElementaryTypeNameExpression".to_owned())));
            let mut fs = fields;
            out.append(&mut fs);
            proof {
                lemma_jv_pairs(out@);
                lemma_jv_pairs(fv);
                assert(out@ == seq![out@[0]] + fv);
                assert(jv_pairs(out@) =~~= seq![("nodeType"@, JsonV::Str("ElementaryTypeNameExpression"@))]
                    + enc_elementary_type_name_expression(**b));
            }
            JsonValue::Obj(out)
        },
        FunctionCallExpression::FunctionCall(b) => {
            let fields = encode_function_call(b);
            let ghost fv = fields@;
            let mut out: Vec<(String, JsonValue)> = Vec::new();
            out.push(("nodeType".to_owned(), JsonValue::Str("FunctionCall".to_owned())));
            let mut fs = fields;
            out.append(&mut fs);
            proof {
                lemma_jv_pairs(out@);
                lemma_jv_pairs(fv);
                assert(out@ == seq![out@[0]] + fv);
                assert(jv_pairs(out@) =~~= seq![("nodeType"@, JsonV::Str("FunctionCall"@))]
                    + enc_function_call(**b));
            }
            JsonValue::Obj(out)
        },
        FunctionCallExpression::FunctionCallOptions(b) => {
            let fields = encode_function_call_options(b);
            let ghost fv = fields@;
            let mut out: Vec<(String, JsonValue)> = Vec::new();
            out.push(("nodeType".to_owned(), JsonValue::Str("FunctionCallOptions".to_owned())));
            let mut fs = fields;
            out.append(&mut fs);
            proof {
                lemma_jv_pairs(out@);
                lemma_jv_pairs(fv);
                assert(out@ == seq![out@[0]] + fv);
                assert(jv_pairs(out@) =~~= seq![("nodeType"@, JsonV::Str("FunctionCallOptions"@))]
                    + enc_function_call_options(**b));
            }
            JsonValue::Obj(out)
        },
        FunctionCallExpression::Identifier(b) => {
            let fields = encode_identifier(b);
            JsonValue::Obj(fields)
        },
        FunctionCallExpression::MemberAccess(b) => {
            let fields = encode_member_access(b);
            let ghost fv = fields@;
            let mut out: Vec<(String, JsonValue)> = Vec::new();
            out.push(("nodeType".to_owned(), JsonValue::Str("MemberAccess".to_owned())));
            let mut fs = fields;
            out.append(&mut fs);
            proof {
                lemma_jv_pairs(out@);
                lemma_jv_pairs(fv);
                assert(out@ == seq![out@[0]] + fv);
                assert(jv_pairs(out@) =~~= seq![("nodeType"@, JsonV::Str("MemberAccess"@))]
                    + enc_member_access(**b));
            }
            JsonValue::Obj(out)
        },
        FunctionCallExpression::NewExpression(b) => {
            let fields = encode_new_expression(b);
            let ghost fv = fields@;
            let mut out: Vec<(String, JsonValue)> = Vec::new();
            out.push(("nodeType".to_owned(), JsonValue::Str("NewExpression".to_owned())));
            let mut fs = fields;
            out.append(&mut fs);
            proof {
                lemma_jv_pairs(out@);
                lemma_jv_pairs(fv);
                assert(out@ == seq![out@[0]] + fv);
                assert(jv_pairs(out@) =~~= seq![("nodeType"@, JsonV::Str("NewExpression"@))]
                    + enc_new_expression(**b));
            }
            JsonValue::Obj(out)
        },
    }
}

/// Encodes a sourceUnitNode node in canonical form.
pub fn encode_source_unit_node(e: &SourceUnitNode) -> (r: JsonValue)
    ensures
        jv(r) == enc_source_unit_node(*e),
    decreases *e,
{
    match e {
        SourceUnitNode::ContractDefinition(b) => {
            let fields = encode_contract_definition(b);
            let ghost fv = fields@;
            let mut out: Vec<(String, JsonValue)> = Vec::new();
            out.push(("nodeType".to_owned(), JsonValue::Str("ContractDefinition".to_owned())));
            let mut fs = fields;
            out.append(&mut fs);
            proof {
                lemma_jv_pairs(out@);
                lemma_jv_pairs(fv);
                assert(out@ == seq![out@[0]] + fv);
                assert(jv_pairs(out@) =~~= seq![("nodeType"@, JsonV::Str("ContractDefinition"@))]
                    + enc_contract_definition(**b));
            }
            JsonValue::Obj(out)
        },
        SourceUnitNode::EnumDefinition(b) => {
            let fields = encode_enum_definition(b);
            let ghost fv = fields@;
            let mut out: Vec<(String, JsonValue)> = Vec::new();
            out.push(("nodeType".to_owned(), JsonValue::Str("EnumDefinition".to_owned())));
            let mut fs = fields;
            out.append(&mut fs);
            proof {
                lemma_jv_pairs(out@);
                lemma_jv_pairs(fv);
                assert(out@ == seq![out@[0]] + fv);
                assert(jv_pairs(out@) =~~= seq![("nodeType"@, JsonV::Str("EnumDefinition"@))]
                    + enc_enum_definition(**b));
            }
            JsonValue::Obj(out)
        },
        SourceUnitNode::ErrorDefinition(b) => {
            let fields = encode_error_definition(b);
            let ghost fv = fields@;
            let mut out: Vec<(String, JsonValue)> = Vec::new();
            out.push(("nodeType".to_owned(), JsonValue::Str("ErrorDefinition".to_owned())));
            let mut fs = fields;
            out.append(&mut fs);
            proof {
                lemma_jv_pairs(out@);
                lemma_jv_pairs(fv);
                assert(out@ == seq![out@[0]] + fv);
                assert(jv_pairs(out@) =~~= seq![("nodeType"@, JsonV::Str("ErrorDefinition"@))]
                    + enc_error_definition(**b));
            }
            JsonValue::Obj(out)
        },
        SourceUnitNode::EventDefinition(b) => {
            let fields = encode_event_definition(b);
            let ghost fv = fields@;
            let mut out: Vec<(String, JsonValue)> = Vec::new();
            out.push(("nodeType".to_owned(), JsonValue::Str("EventDefinition".to_owned())));
            let mut fs = fields;
            out.append(&mut fs);
            proof {
                lemma_jv_pairs(out@);
                lemma_jv_pairs(fv);
                assert(out@ == seq![out@[0]] + fv);
                assert(jv_pairs(out@) =~~= seq![("nodeType"@, JsonV::Str("EventDefinition"@))]
                    + enc_event_definition(**b));
            }
            JsonValue::Obj(out)
        },
        SourceUnitNode::FunctionDefinition(b) => {
            let fields = encode_function_definition(b);
            let ghost fv = fields@;
            let mut out: Vec<(String, JsonValue)> = Vec::new();
            out.push(("nodeType".to_owned(), JsonValue::Str("FunctionDefinition".to_owned())));
            let mut fs = fields;
            out.append(&mut fs);
            proof {
                lemma_jv_pairs(out@);
                lemma_jv_pairs(fv);
                assert(out@ == seq![out@[0]] + fv);
                assert(jv_pairs(out@) =~~= seq![("nodeType"@, JsonV::Str("FunctionDefinition"@))]
                    + enc_function_definition(**b));
            }
            JsonValue::Obj(out)
        },
        SourceUnitNode::ImportDirective(b) => {
            let fields = encode_import_directive(b);
            let ghost fv = fields@;
            let mut out: Vec<(String, JsonValue)> = Vec::new();
            out.push(("nodeType".to_owned(), JsonValue::Str("ImportDirective".to_owned())));
            let mut fs = fields;
            out.append(&mut fs);
            proof {
                lemma_jv_pairs(out@);
                lemma_jv_pairs(fv);
                assert(out@ == seq![out@[0]] + fv);
                assert(jv_pairs(out@) =~~= seq![("nodeType"@, JsonV::Str("ImportDirective"@))]
                    + enc_import_directive(**b));
            }
            JsonValue::Obj(out)
        },
        SourceUnitNode::PragmaDirective(b) => {
            let fields = encode_pragma_directive(b);
            let ghost fv = fields@;
            let mut out: Vec<(String, JsonValue)> = Vec::new();
            out.push(("nodeType".to_owned(), JsonValue::Str("PragmaDirective".to_owned())));
            let mut fs = fields;
            out.append(&mut fs);
            proof {
                lemma_jv_pairs(out@);
                lemma_jv_pairs(fv);
                assert(out@ == seq![out@[0]] + fv);
                assert(jv_pairs(out@) =~~= seq![("nodeType"@, JsonV::Str("PragmaDirective"@))]
                    + enc_pragma_directive(**b));
            }
            JsonValue::Obj(out)
        },
        SourceUnitNode::StructDefinition(b) => {
            let fields = encode_struct_definition(b);
            let ghost fv = fields@;
            let mut out: Vec<(String, JsonValue)> = Vec::new();
            out.push(("nodeType".to_owned(), JsonValue::Str("StructDefinition".to_owned())));
            let mut fs = fields;
            out.append(&mut fs);
            proof {
                lemma_jv_pairs(out@);
                lemma_jv_pairs(fv);
                assert(out@ == seq![out@[0]] + fv);
                assert(jv_pairs(out@) =~~= seq![("nodeType"@, JsonV::Str("StructDefinition"@))]
                    + enc_struct_definition(**b));
            }
            JsonValue::Obj(out)
        },
        SourceUnitNode::UserDefinedValueTypeDefinition(b) => {
            let fields = encode_user_defined_value_type_definition(b);
            let ghost fv = fields@;
            let mut out: Vec<(String, JsonValue)> = Vec::new();
            out.push(("nodeType".to_owned(), JsonValue::Str("UserDefinedValueTypeDefinition".to_owned())));
            let mut fs = fields;
            out.append(&mut fs);
            proof {
                lemma_jv_pairs(out@);
                lemma_jv_pairs(fv);
                assert(out@ == seq![out@[0]] + fv);
                assert(jv_pairs(out@) =~~= seq![("nodeType"@, JsonV::Str("UserDefinedValueTypeDefinition"@))]
                    + enc_user_defined_value_type_definition(**b));
            }
            JsonValue::Obj(out)
        },
        SourceUnitNode::UsingForDirective(b) => {
            let fields = encode_using_for_directive(b);
            let ghost fv = fields@;
            let mut out: Vec<(String, JsonValue)> = Vec::new();
            out.push(("nodeType".to_owned(), JsonValue::Str("UsingForDirective".to_owned())));
            let mut fs = fields;
            out.append(&mut fs);
            proof {
                lemma_jv_pairs(out@);
                lemma_jv_pairs(fv);
                assert(out@ == seq![out@[0]] + fv);
                assert(jv_pairs(out@) =~~= seq![("nodeType"@, JsonV::Str("UsingForDirective"@))]
                    + enc_using_for_directive(**b));
            }
            JsonValue::Obj(out)
        },
        SourceUnitNode::VariableDeclaration(b) => {
            let fields = encode_variable_declaration(b);
            let ghost fv = fields@;
            let mut out: Vec<(String, JsonValue)> = Vec::new();
            out.push(("nodeType".to_owned(), JsonValue::Str("VariableDeclaration".to_owned())));
            let mut fs = fields;
            out.append(&mut fs);
            proof {
                lemma_jv_pairs(out@);
                lemma_jv_pairs(fv);
                assert(out@ == seq![out@[0]] + fv);
                assert(jv_pairs(out@) =~~= seq![("nodeType"@, JsonV::Str("VariableDeclaration"@))]
                    + enc_variable_declaration(**b));
            }
            JsonValue::Obj(out)
        },
    }
}

/// Encodes a contractDefinitionNode node in canonical form.
pub fn encode_contract_node(e: &ContractDefinitionNode) -> (r: JsonValue)
    ensures
        jv(r) == enc_contract_node(*e),
    decreases *e,
{
    match e {
        ContractDefinitionNode::EnumDefinition(b) => {
            let fields = encode_enum_definition(b);
            let ghost fv = fields@;
            let mut out: Vec<(String, JsonValue)> = Vec::new();
            out.push(("nodeType".to_owned(), JsonValue::Str("EnumDefinition".to_owned())));
            let mut fs = fields;
            out.append(&mut fs);
            proof {
                lemma_jv_pairs(out@);
                lemma_jv_pairs(fv);
                assert(out@ == seq![out@[0]] + fv);
                assert(jv_pairs(out@) =~~= seq![("nodeType"@, JsonV::Str("EnumDefinition"@))]
                    + enc_enum_definition(**b));
            }
            JsonValue::Obj(out)
        },
        ContractDefinitionNode::ErrorDefinition(b) => {
            let fields = encode_error_definition(b);
            let ghost fv = fields@;
            let mut out: Vec<(String, JsonValue)> = Vec::new();
            out.push(("nodeType".to_owned(), JsonValue::Str("ErrorDefinition".to_owned())));
            let mut fs = fields;
            out.append(&mut fs);
            proof {
                lemma_jv_pairs(out@);
                lemma_jv_pairs(fv);
                assert(out@ == seq![out@[0]] + fv);
                assert(jv_pairs(out@) =~~= seq![("nodeType"@, JsonV::Str("ErrorDefinition"@))]
                    + enc_error_definition(**b));
            }
            JsonValue::Obj(out)
        },
        ContractDefinitionNode::EventDefinition(b) => {
            let fields = encode_event_definition(b);
            let ghost fv = fields@;
            let mut out: Vec<(String, JsonValue)> = Vec::new();
            out.push(("nodeType".to_owned(), JsonValue::Str("EventDefinition".to_owned())));
            let mut fs = fields;
            out.append(&mut fs);
            proof {
                lemma_jv_pairs(out@);
                lemma_jv_pairs(fv);
                assert(out@ == seq![out@[0]] + fv);
                assert(jv_pairs(out@) =~~= seq![("nodeType"@, JsonV::Str("EventDefinition"@))]
                    + enc_event_definition(**b));
            }
            JsonValue::Obj(out)
        },
        ContractDefinitionNode::FunctionDefinition(b) => {
            let fields = encode_function_definition(b);
            let ghost fv = fields@;
            let mut out: Vec<(String, JsonValue)> = Vec::new();
            out.push(("nodeType".to_owned(), JsonValue::Str("FunctionDefinition".to_owned())));
            let mut fs = fields;
            out.append(&mut fs);
            proof {
                lemma_jv_pairs(out@);
                lemma_jv_pairs(fv);
                assert(out@ == seq![out@[0]] + fv);
                assert(jv_pairs(out@) =~~= seq![("nodeType"@, JsonV::Str("FunctionDefinition"@))]
                    + enc_function_definition(**b));
            }
            JsonValue::Obj(out)
        },
        ContractDefinitionNode::ModifierDefinition(b) => {
            let fields = encode_modifier_definition(b);
            let ghost fv = fields@;
            let mut out: Vec<(String, JsonValue)> = Vec::new();
            out.push(("nodeType".to_owned(), JsonValue::Str("ModifierDefinition".to_owned())));
            let mut fs = fields;
            out.append(&mut fs);
            proof {
                lemma_jv_pairs(out@);
                lemma_jv_pairs(fv);
                assert(out@ == seq![out@[0]] + fv);
                assert(jv_pairs(out@) =~~= seq![("nodeType"@, JsonV::Str("ModifierDefinition"@))]
                    + enc_modifier_definition(**b));
            }
            JsonValue::Obj(out)
        },
        ContractDefinitionNode::StructDefinition(b) => {
            let fields = encode_struct_definition(b);
            let ghost fv = fields@;
            let mut out: Vec<(String, JsonValue)> = Vec::new();
            out.push(("nodeType".to_owned(), JsonValue::Str("StructDefinition".to_owned())));
            let mut fs = fields;
            out.append(&mut fs);
            proof {
                lemma_jv_pairs(out@);
                lemma_jv_pairs(fv);
                assert(out@ == seq![out@[0]] + fv);
                assert(jv_pairs(out@) =~~= seq![("nodeType"@, JsonV::Str("StructDefinition"@))]
                    + enc_struct_definition(**b));
            }
            JsonValue::Obj(out)
        },
        ContractDefinitionNode::UsingForDirective(b) => {
            let fields = encode_using_for_directive(b);
            let ghost fv = fields@;
            let mut out: Vec<(String, JsonValue)> = Vec::new();
            out.push(("nodeType".to_owned(), JsonValue::Str("UsingForDirective".to_owned())));
            let mut fs = fields;
            out.append(&mut fs);
            proof {
                lemma_jv_pairs(out@);
                lemma_jv_pairs(fv);
                assert(out@ == seq![out@[0]] + fv);
                assert(jv_pairs(out@) =~~= seq![("nodeType"@, JsonV::Str("UsingForDirective"@))]
                    + enc_using_for_directive(**b));
            }
            JsonValue::Obj(out)
        },
        ContractDefinitionNode::VariableDeclaration(b) => {
            let fields = encode_variable_declaration(b);
            let ghost fv = fields@;
            let mut out: Vec<(String, JsonValue)> = Vec::new();
            out.push(("nodeType".to_owned(), JsonValue::Str("VariableDeclaration".to_owned())));
            let mut fs = fields;
            out.append(&mut fs);
            proof {
                lemma_jv_pairs(out@);
                lemma_jv_pairs(fv);
                assert(out@ == seq![out@[0]] + fv);
                assert(jv_pairs(out@) =~~= seq![("nodeType"@, JsonV::Str("VariableDeclaration"@))]
                    + enc_variable_declaration(**b));
            }
            JsonValue::Obj(out)
        },
    }
}

} // verus!
