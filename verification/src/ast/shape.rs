//! The canonical wire form of every node record and family: for each value,
//! the exact member list (or JSON value) that the engine's canonicalization
//! yields and that the encoders emit.

use vstd::prelude::*;

use crate::ast::canon::{
    canon_elems, canon_field, canon_fields, cat_opts, lemma_canon_fields_ok, schema, Child, ErrV,
    FieldKind, RecId,
};
use crate::ast::common::{spec_encode_location, SourceLocation, TypeDescriptions};
use crate::ast::fields::{
    ints_of, map_ints_of, omit_str_of, opt_arr_ints_of, opt_bool_of, opt_int_of, opt_ints_of,
    opt_str_of, opt_strs_of, strs_of,
};
use crate::ast::identifier::Identifier;
use crate::ast::types::{spec_encode_elementary, ElementaryType, ElementaryTypeName};
use crate::ast::{
    ArrayTypeName, Assignment, BinaryOperation, Block, Break, CommonType, Conditional,
    ContractDefinition, ContractDefinitionNode, ContractKind, Continue, Documentation,
    DoWhileStatement, ElementaryTypeNameExpression, EmitStatement, EnumDefinition, EnumValue,
    ErrorDefinition, EventDefinition, Expression, ExpressionStatement, ExternalReference,
    ForStatement, FunctionCall, FunctionCallExpression, FunctionCallOptions, FunctionDefinition,
    FunctionKind, FunctionTypeName, IdentifierPath, IfStatement, ImportDirective,
    IndexAccess, InheritanceSpecifier, InlineAssembly, Literal, LiteralKind, Mapping, MemberAccess,
    ModifierDefinition, ModifierInvocation, ModifierInvocationKind, Mutability, NewExpression,
    OverrideSpecifier, ParameterList, PlaceholderStatement, PragmaDirective, Return,
    RevertStatement, SourceUnit, SourceUnitNode, Statement, StateMutability, StorageLocation,
    StructDefinition, StructuredDocumentation, StructuredDocumentationCustom,
    StructuredDocumentationParameter, StructuredDocumentationReturn, SymbolAlias, TryCatchClause,
    TryStatement, TupleExpression, TypeName, UncheckedBlock, UnaryOperation,
    UserDefinedTypeName, UserDefinedValueTypeDefinition, UsingForDirective, VariableDeclaration,
    VariableDeclarationStatement, Visibility, WhileStatement,
};
use crate::json::{jv, JsonV, JsonValue};

verus! {

/// The wire spelling of a visibility value.
pub open spec fn spell_vis(x: Visibility) -> Seq<char> {
    match x {
        Visibility::External => "external"@,
        Visibility::Public => "public"@,
        Visibility::Internal => "internal"@,
        Visibility::Private => "private"@,
    }
}

/// The wire spelling of a state mutability value.
pub open spec fn spell_sm(x: StateMutability) -> Seq<char> {
    match x {
        StateMutability::Pure => "pure"@,
        StateMutability::View => "view"@,
        StateMutability::Nonpayable => "nonpayable"@,
        StateMutability::Payable => "payable"@,
    }
}

/// The canonical member value of an optional state mutability.
pub open spec fn opt_spell_sm_of(x: Option<StateMutability>) -> JsonV {
    match x {
        Some(v) => JsonV::Str(spell_sm(v)),
        None => JsonV::Null,
    }
}

/// The wire spelling of a storage location value.
pub open spec fn spell_sl(x: StorageLocation) -> Seq<char> {
    match x {
        StorageLocation::Default => "default"@,
        StorageLocation::Memory => "memory"@,
        StorageLocation::Storage => "storage"@,
        StorageLocation::Calldata => "calldata"@,
    }
}

/// The canonical member value of an optional storage location.
pub open spec fn opt_spell_sl_of(x: Option<StorageLocation>) -> JsonV {
    match x {
        Some(v) => JsonV::Str(spell_sl(v)),
        None => JsonV::Null,
    }
}

/// The wire spelling of a mutability value.
pub open spec fn spell_mut(x: Mutability) -> Seq<char> {
    match x {
        Mutability::Mutable => "mutable"@,
        Mutability::Immutable => "immutable"@,
        Mutability::Constant => "constant"@,
    }
}

/// The canonical member value of an optional mutability.
pub open spec fn opt_spell_mut_of(x: Option<Mutability>) -> JsonV {
    match x {
        Some(v) => JsonV::Str(spell_mut(v)),
        None => JsonV::Null,
    }
}

/// The wire spelling of a literal kind value.
pub open spec fn spell_lit(x: LiteralKind) -> Seq<char> {
    match x {
        LiteralKind::Bool => "bool"@,
        LiteralKind::Number => "number"@,
        LiteralKind::String => "string"@,
        LiteralKind::HexString => "hexString"@,
        LiteralKind::UnicodeString => "unicodeString"@,
    }
}

/// The wire spelling of a contract kind value.
pub open spec fn spell_ck(x: ContractKind) -> Seq<char> {
    match x {
        ContractKind::Contract => "contract"@,
        ContractKind::Interface => "interface"@,
        ContractKind::Library => "library"@,
    }
}

/// The wire spelling of a function kind value.
pub open spec fn spell_fk(x: FunctionKind) -> Seq<char> {
    match x {
        FunctionKind::Constructor => "constructor"@,
        FunctionKind::Function => "function"@,
        FunctionKind::Receive => "receive"@,
        FunctionKind::Fallback => "fallback"@,
        FunctionKind::FreeFunction => "freeFunction"@,
    }
}

/// The wire spelling of a modifier invocation kind value.
pub open spec fn spell_mik(x: ModifierInvocationKind) -> Seq<char> {
    match x {
        ModifierInvocationKind::Modifier => "modifier"@,
        ModifierInvocationKind::BaseConstructorSpecifier => "baseConstructorSpecifier"@,
        ModifierInvocationKind::ModifierInvocation => "modifierInvocation"@,
    }
}

/// The canonical member value of an optional modifier invocation kind.
pub open spec fn opt_spell_mik_of(x: Option<ModifierInvocationKind>) -> JsonV {
    match x {
        Some(v) => JsonV::Str(spell_mik(v)),
        None => JsonV::Null,
    }
}

/// The canonical member value of an optional free-form JSON member.
pub open spec fn opt_free_of(x: Option<JsonValue>) -> JsonV {
    match x {
        Some(v) => jv(v),
        None => JsonV::Null,
    }
}

/// The canonical form of a documentation member: a bare string stays a
/// string, a structured record keeps its canonical members.
pub open spec fn enc_doc(d: Documentation) -> JsonV {
    match d {
        Documentation::String(s) => JsonV::Str(s@),
        Documentation::Structured(sd) => JsonV::Obj(enc_structured_documentation(sd)),
    }
}

/// The canonical member value of an optional documentation member.
pub open spec fn opt_doc_of(x: Option<Documentation>) -> JsonV {
    match x {
        Some(d) => enc_doc(d),
        None => JsonV::Null,
    }
}

/// The canonical member value of an optional block member.
pub open spec fn opt_block_of(x: Option<Block>) -> JsonV
    decreases x,
{
    match x {
        Some(v) => JsonV::Obj(enc_block(v)),
        None => JsonV::Null,
    }
}

/// The canonical member value of an optional expr member.
pub open spec fn opt_expr_of(x: Option<Expression>) -> JsonV
    decreases x,
{
    match x {
        Some(v) => enc_expr(v),
        None => JsonV::Null,
    }
}

/// The canonical member value of an optional identifier path member.
pub open spec fn opt_identifier_path_of(x: Option<IdentifierPath>) -> JsonV
{
    match x {
        Some(v) => JsonV::Obj(enc_identifier_path(v)),
        None => JsonV::Null,
    }
}

/// The canonical member value of an optional override specifier member.
pub open spec fn opt_override_specifier_of(x: Option<OverrideSpecifier>) -> JsonV
{
    match x {
        Some(v) => JsonV::Obj(enc_override_specifier(v)),
        None => JsonV::Null,
    }
}

/// The canonical member value of an optional parameter list member.
pub open spec fn opt_parameter_list_of(x: Option<ParameterList>) -> JsonV
    decreases x,
{
    match x {
        Some(v) => JsonV::Obj(enc_parameter_list(v)),
        None => JsonV::Null,
    }
}

/// The canonical member value of an optional stmt member.
pub open spec fn opt_stmt_of(x: Option<Statement>) -> JsonV
    decreases x,
{
    match x {
        Some(v) => enc_stmt(v),
        None => JsonV::Null,
    }
}

/// The canonical member value of an optional type name member.
pub open spec fn opt_type_name_of(x: Option<TypeName>) -> JsonV
    decreases x,
{
    match x {
        Some(v) => enc_type_name(v),
        None => JsonV::Null,
    }
}

/// The canonical member value of an optional user defined type name member.
pub open spec fn opt_user_defined_type_name_of(x: Option<UserDefinedTypeName>) -> JsonV
{
    match x {
        Some(v) => JsonV::Obj(enc_user_defined_type_name(v)),
        None => JsonV::Null,
    }
}

/// The canonical values of a sequence of contract node members.
pub open spec fn seq_contract_node_of(s: Seq<ContractDefinitionNode>) -> Seq<JsonV>
    decreases s,
{
    if s.len() == 0 {
        Seq::empty()
    } else {
        seq![enc_contract_node(s[0])] + seq_contract_node_of(s.skip(1))
    }
}

pub proof fn lemma_seq_contract_node_of(s: Seq<ContractDefinitionNode>)
    ensures
        seq_contract_node_of(s).len() == s.len(),
        forall|i: int| 0 <= i < s.len() ==> seq_contract_node_of(s)[i] == enc_contract_node(s[i]),
    decreases s,
{
    if s.len() > 0 {
        lemma_seq_contract_node_of(s.skip(1));
    }
}

/// The canonical values of a sequence of enum value members.
pub open spec fn seq_enum_value_of(s: Seq<EnumValue>) -> Seq<JsonV> {
    s.map_values(|x: EnumValue| JsonV::Obj(enc_enum_value(x)))
}

/// The canonical values of a sequence of expr members.
pub open spec fn seq_expr_of(s: Seq<Expression>) -> Seq<JsonV>
    decreases s,
{
    if s.len() == 0 {
        Seq::empty()
    } else {
        seq![enc_expr(s[0])] + seq_expr_of(s.skip(1))
    }
}

pub proof fn lemma_seq_expr_of(s: Seq<Expression>)
    ensures
        seq_expr_of(s).len() == s.len(),
        forall|i: int| 0 <= i < s.len() ==> seq_expr_of(s)[i] == enc_expr(s[i]),
    decreases s,
{
    if s.len() > 0 {
        lemma_seq_expr_of(s.skip(1));
    }
}

/// The canonical member value of an optional array of expr members.
pub open spec fn opt_arr_expr_of(x: Option<Vec<Expression>>) -> JsonV
    decreases x,
{
    match x {
        Some(v) => JsonV::Arr(seq_expr_of(v@)),
        None => JsonV::Null,
    }
}

/// The canonical values of a sequence of identifier path members.
pub open spec fn seq_identifier_path_of(s: Seq<IdentifierPath>) -> Seq<JsonV> {
    s.map_values(|x: IdentifierPath| JsonV::Obj(enc_identifier_path(x)))
}

/// The canonical values of a sequence of inheritance specifier members.
pub open spec fn seq_inheritance_specifier_of(s: Seq<InheritanceSpecifier>) -> Seq<JsonV>
    decreases s,
{
    if s.len() == 0 {
        Seq::empty()
    } else {
        seq![JsonV::Obj(enc_inheritance_specifier(s[0]))] + seq_inheritance_specifier_of(s.skip(1))
    }
}

pub proof fn lemma_seq_inheritance_specifier_of(s: Seq<InheritanceSpecifier>)
    ensures
        seq_inheritance_specifier_of(s).len() == s.len(),
        forall|i: int| 0 <= i < s.len() ==> seq_inheritance_specifier_of(s)[i] == JsonV::Obj(enc_inheritance_specifier(s[i])),
    decreases s,
{
    if s.len() > 0 {
        lemma_seq_inheritance_specifier_of(s.skip(1));
    }
}

/// The canonical member value of an optional array of inheritance specifier members.
pub open spec fn opt_arr_inheritance_specifier_of(x: Option<Vec<InheritanceSpecifier>>) -> JsonV
    decreases x,
{
    match x {
        Some(v) => JsonV::Arr(seq_inheritance_specifier_of(v@)),
        None => JsonV::Null,
    }
}

/// The canonical values of a sequence of modifier invocation members.
pub open spec fn seq_modifier_invocation_of(s: Seq<ModifierInvocation>) -> Seq<JsonV>
    decreases s,
{
    if s.len() == 0 {
        Seq::empty()
    } else {
        seq![JsonV::Obj(enc_modifier_invocation(s[0]))] + seq_modifier_invocation_of(s.skip(1))
    }
}

pub proof fn lemma_seq_modifier_invocation_of(s: Seq<ModifierInvocation>)
    ensures
        seq_modifier_invocation_of(s).len() == s.len(),
        forall|i: int| 0 <= i < s.len() ==> seq_modifier_invocation_of(s)[i] == JsonV::Obj(enc_modifier_invocation(s[i])),
    decreases s,
{
    if s.len() > 0 {
        lemma_seq_modifier_invocation_of(s.skip(1));
    }
}

/// The canonical values of a sequence of symbol alias members.
pub open spec fn seq_symbol_alias_of(s: Seq<SymbolAlias>) -> Seq<JsonV> {
    s.map_values(|x: SymbolAlias| JsonV::Obj(enc_symbol_alias(x)))
}

/// The canonical values of a sequence of documentation custom members.
pub open spec fn seq_documentation_custom_of(s: Seq<StructuredDocumentationCustom>) -> Seq<JsonV> {
    s.map_values(|x: StructuredDocumentationCustom| JsonV::Obj(enc_documentation_custom(x)))
}

/// The canonical values of a sequence of documentation parameter members.
pub open spec fn seq_documentation_parameter_of(s: Seq<StructuredDocumentationParameter>) -> Seq<JsonV> {
    s.map_values(|x: StructuredDocumentationParameter| JsonV::Obj(enc_documentation_parameter(x)))
}

/// The canonical values of a sequence of documentation return members.
pub open spec fn seq_documentation_return_of(s: Seq<StructuredDocumentationReturn>) -> Seq<JsonV> {
    s.map_values(|x: StructuredDocumentationReturn| JsonV::Obj(enc_documentation_return(x)))
}

/// The canonical values of a sequence of stmt members.
pub open spec fn seq_stmt_of(s: Seq<Statement>) -> Seq<JsonV>
    decreases s,
{
    if s.len() == 0 {
        Seq::empty()
    } else {
        seq![enc_stmt(s[0])] + seq_stmt_of(s.skip(1))
    }
}

pub proof fn lemma_seq_stmt_of(s: Seq<Statement>)
    ensures
        seq_stmt_of(s).len() == s.len(),
        forall|i: int| 0 <= i < s.len() ==> seq_stmt_of(s)[i] == enc_stmt(s[i]),
    decreases s,
{
    if s.len() > 0 {
        lemma_seq_stmt_of(s.skip(1));
    }
}

/// The canonical values of a sequence of source unit node members.
pub open spec fn seq_source_unit_node_of(s: Seq<SourceUnitNode>) -> Seq<JsonV>
    decreases s,
{
    if s.len() == 0 {
        Seq::empty()
    } else {
        seq![enc_source_unit_node(s[0])] + seq_source_unit_node_of(s.skip(1))
    }
}

pub proof fn lemma_seq_source_unit_node_of(s: Seq<SourceUnitNode>)
    ensures
        seq_source_unit_node_of(s).len() == s.len(),
        forall|i: int| 0 <= i < s.len() ==> seq_source_unit_node_of(s)[i] == enc_source_unit_node(s[i]),
    decreases s,
{
    if s.len() > 0 {
        lemma_seq_source_unit_node_of(s.skip(1));
    }
}

/// The canonical values of a sequence of try catch clause members.
pub open spec fn seq_try_catch_clause_of(s: Seq<TryCatchClause>) -> Seq<JsonV>
    decreases s,
{
    if s.len() == 0 {
        Seq::empty()
    } else {
        seq![JsonV::Obj(enc_try_catch_clause(s[0]))] + seq_try_catch_clause_of(s.skip(1))
    }
}

pub proof fn lemma_seq_try_catch_clause_of(s: Seq<TryCatchClause>)
    ensures
        seq_try_catch_clause_of(s).len() == s.len(),
        forall|i: int| 0 <= i < s.len() ==> seq_try_catch_clause_of(s)[i] == JsonV::Obj(enc_try_catch_clause(s[i])),
    decreases s,
{
    if s.len() > 0 {
        lemma_seq_try_catch_clause_of(s.skip(1));
    }
}

/// The canonical values of a sequence of type descriptions members.
pub open spec fn seq_type_descriptions_of(s: Seq<TypeDescriptions>) -> Seq<JsonV> {
    s.map_values(|x: TypeDescriptions| JsonV::Obj(enc_type_descriptions(x)))
}

/// The canonical member value of an optional array of type descriptions members.
pub open spec fn opt_arr_type_descriptions_of(x: Option<Vec<TypeDescriptions>>) -> JsonV
{
    match x {
        Some(v) => JsonV::Arr(seq_type_descriptions_of(v@)),
        None => JsonV::Null,
    }
}

/// The canonical values of a sequence of type name members.
pub open spec fn seq_type_name_of(s: Seq<TypeName>) -> Seq<JsonV>
    decreases s,
{
    if s.len() == 0 {
        Seq::empty()
    } else {
        seq![enc_type_name(s[0])] + seq_type_name_of(s.skip(1))
    }
}

pub proof fn lemma_seq_type_name_of(s: Seq<TypeName>)
    ensures
        seq_type_name_of(s).len() == s.len(),
        forall|i: int| 0 <= i < s.len() ==> seq_type_name_of(s)[i] == enc_type_name(s[i]),
    decreases s,
{
    if s.len() > 0 {
        lemma_seq_type_name_of(s.skip(1));
    }
}

/// The canonical values of a sequence of variable declaration members.
pub open spec fn seq_variable_declaration_of(s: Seq<VariableDeclaration>) -> Seq<JsonV>
    decreases s,
{
    if s.len() == 0 {
        Seq::empty()
    } else {
        seq![JsonV::Obj(enc_variable_declaration(s[0]))] + seq_variable_declaration_of(s.skip(1))
    }
}

pub proof fn lemma_seq_variable_declaration_of(s: Seq<VariableDeclaration>)
    ensures
        seq_variable_declaration_of(s).len() == s.len(),
        forall|i: int| 0 <= i < s.len() ==> seq_variable_declaration_of(s)[i] == JsonV::Obj(enc_variable_declaration(s[i])),
    decreases s,
{
    if s.len() > 0 {
        lemma_seq_variable_declaration_of(s.skip(1));
    }
}

/// The canonical values of a sequence of external reference members.
pub open spec fn seq_external_reference_of(s: Seq<ExternalReference>) -> Seq<JsonV> {
    s.map_values(|x: ExternalReference| JsonV::Obj(enc_external_reference(x)))
}

/// The canonical member value of an optional array of external reference members.
pub open spec fn opt_arr_external_reference_of(x: Option<Vec<ExternalReference>>) -> JsonV
{
    match x {
        Some(v) => JsonV::Arr(seq_external_reference_of(v@)),
        None => JsonV::Null,
    }
}

/// The canonical values of a sequence of optional expr members.
pub open spec fn seq_opt_expr_of(s: Seq<Option<Expression>>) -> Seq<JsonV>
    decreases s,
{
    if s.len() == 0 {
        Seq::empty()
    } else {
        seq![opt_expr_of(s[0])] + seq_opt_expr_of(s.skip(1))
    }
}

pub proof fn lemma_seq_opt_expr_of(s: Seq<Option<Expression>>)
    ensures
        seq_opt_expr_of(s).len() == s.len(),
        forall|i: int| 0 <= i < s.len() ==> seq_opt_expr_of(s)[i] == opt_expr_of(s[i]),
    decreases s,
{
    if s.len() > 0 {
        lemma_seq_opt_expr_of(s.skip(1));
    }
}

/// The canonical values of a sequence of optional variable declaration members.
pub open spec fn seq_opt_variable_declaration_of(s: Seq<Option<VariableDeclaration>>) -> Seq<JsonV>
    decreases s,
{
    if s.len() == 0 {
        Seq::empty()
    } else {
        seq![opt_variable_declaration_of(s[0])] + seq_opt_variable_declaration_of(s.skip(1))
    }
}

pub proof fn lemma_seq_opt_variable_declaration_of(s: Seq<Option<VariableDeclaration>>)
    ensures
        seq_opt_variable_declaration_of(s).len() == s.len(),
        forall|i: int| 0 <= i < s.len() ==> seq_opt_variable_declaration_of(s)[i] == opt_variable_declaration_of(s[i]),
    decreases s,
{
    if s.len() > 0 {
        lemma_seq_opt_variable_declaration_of(s.skip(1));
    }
}

/// The canonical member value of an optional variable declaration member.
pub open spec fn opt_variable_declaration_of(x: Option<VariableDeclaration>) -> JsonV
    decreases x,
{
    match x {
        Some(v) => JsonV::Obj(enc_variable_declaration(v)),
        None => JsonV::Null,
    }
}

/// The canonical members of a type descriptions record.
pub open spec fn enc_type_descriptions(x: TypeDescriptions) -> Seq<(Seq<char>, JsonV)>
{
    (match x.type_identifier {
        Some(s) => seq![("typeIdentifier"@, JsonV::Str(s@))],
        None => Seq::empty(),
    }) + (match x.type_string {
        Some(s) => seq![("typeString"@, JsonV::Str(s@))],
        None => Seq::empty(),
    })
}

/// The canonical members of a common type record.
pub open spec fn enc_common_type(x: CommonType) -> Seq<(Seq<char>, JsonV)>
{
    seq![
        ("typeIdentifier"@, JsonV::Str(x.type_identifier@)),
        ("typeString"@, JsonV::Str(x.type_string@)),
    ]
}

/// The canonical members of a identifier record.
pub open spec fn enc_identifier(x: Identifier) -> Seq<(Seq<char>, JsonV)>
{
    seq![
        ("nodeType"@, JsonV::Str("Identifier"@)),
        ("id"@, JsonV::Int(x.id as int)),
        ("name"@, JsonV::Str(x.name@)),
        ("overloadedDeclarations"@, JsonV::Arr(ints_of(x.overloaded_declarations@))),
        ("referencedDeclaration"@, opt_int_of(x.referenced_declaration)),
        ("src"@, JsonV::Str(spec_encode_location(x.src))),
        ("typeDescriptions"@, JsonV::Obj(enc_type_descriptions(x.type_descriptions))),
        ("argumentTypes"@, opt_arr_type_descriptions_of(x.argument_types)),
    ]
}

/// The canonical members of a elementary type name record.
pub open spec fn enc_elementary_type_name(x: ElementaryTypeName) -> Seq<(Seq<char>, JsonV)>
{
    seq![
        ("nodeType"@, JsonV::Str("ElementaryTypeName"@)),
        ("id"@, JsonV::Int(x.id as int)),
        ("name"@, JsonV::Str(spec_encode_elementary(x.name))),
        ("src"@, JsonV::Str(spec_encode_location(x.src))),
    ] + (match x.state_mutability {
        Some(s) => seq![("stateMutability"@, JsonV::Str(s@))],
        None => Seq::empty(),
    }) + seq![
        ("typeDescriptions"@, JsonV::Obj(enc_type_descriptions(x.type_descriptions))),
    ]
}

/// The canonical members of a enum value record.
pub open spec fn enc_enum_value(x: EnumValue) -> Seq<(Seq<char>, JsonV)>
{
    seq![
        ("id"@, JsonV::Int(x.id as int)),
        ("name"@, JsonV::Str(x.name@)),
        ("nameLocation"@, JsonV::Str(x.name_location@)),
        ("src"@, JsonV::Str(spec_encode_location(x.src))),
    ]
}

/// The canonical members of a identifier path record.
pub open spec fn enc_identifier_path(x: IdentifierPath) -> Seq<(Seq<char>, JsonV)>
{
    seq![
        ("id"@, JsonV::Int(x.id as int)),
        ("name"@, JsonV::Str(x.name@)),
        ("nameLocations"@, opt_strs_of(x.name_locations)),
        ("referencedDeclaration"@, opt_int_of(x.referenced_declaration)),
        ("src"@, JsonV::Str(spec_encode_location(x.src))),
    ]
}

/// The canonical members of a override specifier record.
pub open spec fn enc_override_specifier(x: OverrideSpecifier) -> Seq<(Seq<char>, JsonV)>
{
    seq![
        ("id"@, JsonV::Int(x.id as int)),
        ("overrides"@, JsonV::Arr(seq_identifier_path_of(x.overrides@))),
        ("src"@, JsonV::Str(spec_encode_location(x.src))),
    ]
}

/// The canonical members of a structured documentation parameter record.
pub open spec fn enc_documentation_parameter(x: StructuredDocumentationParameter) -> Seq<(Seq<char>, JsonV)>
{
    seq![
        ("name"@, JsonV::Str(x.name@)),
        ("description"@, JsonV::Str(x.description@)),
    ]
}

/// The canonical members of a structured documentation return record.
pub open spec fn enc_documentation_return(x: StructuredDocumentationReturn) -> Seq<(Seq<char>, JsonV)>
{
    seq![
        ("name"@, opt_str_of(x.name)),
        ("description"@, JsonV::Str(x.description@)),
    ]
}

/// The canonical members of a structured documentation custom record.
pub open spec fn enc_documentation_custom(x: StructuredDocumentationCustom) -> Seq<(Seq<char>, JsonV)>
{
    seq![
        ("tag"@, JsonV::Str(x.tag@)),
        ("content"@, JsonV::Str(x.content@)),
    ]
}

/// The canonical members of a structured documentation record.
pub open spec fn enc_structured_documentation(x: StructuredDocumentation) -> Seq<(Seq<char>, JsonV)>
{
    seq![
        ("id"@, JsonV::Int(x.id as int)),
        ("text"@, JsonV::Str(x.text@)),
        ("src"@, JsonV::Str(spec_encode_location(x.src))),
        ("url"@, opt_str_of(x.url)),
        ("author"@, opt_str_of(x.author)),
        ("title"@, opt_str_of(x.title)),
        ("notice"@, opt_str_of(x.notice)),
        ("dev"@, opt_str_of(x.dev)),
        ("params"@, JsonV::Arr(seq_documentation_parameter_of(x.params@))),
        ("returns"@, JsonV::Arr(seq_documentation_return_of(x.return_values@))),
        ("custom"@, JsonV::Arr(seq_documentation_custom_of(x.custom@))),
    ]
}

/// The canonical members of a external reference record.
pub open spec fn enc_external_reference(x: ExternalReference) -> Seq<(Seq<char>, JsonV)>
{
    seq![
        ("declaration"@, JsonV::Int(x.declaration as int)),
        ("isOffset"@, JsonV::Bool(x.is_offset)),
        ("isSlot"@, JsonV::Bool(x.is_slot)),
        ("src"@, JsonV::Str(spec_encode_location(x.src))),
        ("valueSize"@, JsonV::Int(x.value_size as int)),
    ]
}

/// The canonical members of a symbol alias record.
pub open spec fn enc_symbol_alias(x: SymbolAlias) -> Seq<(Seq<char>, JsonV)>
{
    seq![
        ("foreign"@, JsonV::Obj(enc_identifier(x.foreign))),
        ("local"@, opt_str_of(x.local)),
        ("nameLocation"@, JsonV::Str(x.name_location@)),
    ]
}

/// The canonical members of a parameter list record.
pub open spec fn enc_parameter_list(x: ParameterList) -> Seq<(Seq<char>, JsonV)>
    decreases x,
{
    seq![
        ("id"@, JsonV::Int(x.id as int)),
        ("parameters"@, JsonV::Arr(seq_variable_declaration_of(x.parameters@))),
        ("src"@, JsonV::Str(spec_encode_location(x.src))),
    ]
}

/// The canonical members of a user defined type name record.
pub open spec fn enc_user_defined_type_name(x: UserDefinedTypeName) -> Seq<(Seq<char>, JsonV)>
{
    seq![
        ("id"@, JsonV::Int(x.id as int)),
        ("pathNode"@, opt_identifier_path_of(x.path_node)),
        ("referenced_declaration"@, opt_int_of(x.referenced_declaration)),
        ("src"@, JsonV::Str(spec_encode_location(x.src))),
        ("typeDescriptions"@, JsonV::Obj(enc_type_descriptions(x.type_descriptions))),
    ]
}

/// The canonical members of a array type name record.
pub open spec fn enc_array_type_name(x: ArrayTypeName) -> Seq<(Seq<char>, JsonV)>
    decreases x,
{
    seq![
        ("id"@, JsonV::Int(x.id as int)),
        ("baseType"@, enc_type_name(x.base_type)),
        ("length"@, opt_expr_of(x.length)),
        ("src"@, JsonV::Str(spec_encode_location(x.src))),
    ]
}

/// The canonical members of a function type name record.
pub open spec fn enc_function_type_name(x: FunctionTypeName) -> Seq<(Seq<char>, JsonV)>
    decreases x,
{
    seq![
        ("id"@, JsonV::Int(x.id as int)),
        ("parameterTypes"@, JsonV::Arr(seq_type_name_of(x.parameter_types@))),
        ("returnParameterTypes"@, JsonV::Arr(seq_type_name_of(x.return_parameter_types@))),
        ("visibility"@, JsonV::Str(x.visibility@)),
        ("stateMutability"@, JsonV::Str(x.state_mutability@)),
        ("src"@, JsonV::Str(spec_encode_location(x.src))),
    ]
}

/// The canonical members of a mapping record.
pub open spec fn enc_mapping(x: Mapping) -> Seq<(Seq<char>, JsonV)>
    decreases x,
{
    seq![
        ("id"@, JsonV::Int(x.id as int)),
        ("keyType"@, enc_type_name(x.key_type)),
        ("valueType"@, enc_type_name(x.value_type)),
        ("src"@, JsonV::Str(spec_encode_location(x.src))),
    ]
}

/// The canonical members of a assignment record.
pub open spec fn enc_assignment(x: Assignment) -> Seq<(Seq<char>, JsonV)>
    decreases x,
{
    seq![
        ("id"@, JsonV::Int(x.id as int)),
        ("leftHandSide"@, enc_expr(x.left_hand_side)),
        ("rightHandSide"@, enc_expr(x.right_hand_side)),
        ("operator"@, JsonV::Str(x.operator@)),
        ("src"@, JsonV::Str(spec_encode_location(x.src))),
        ("typeDescriptions"@, JsonV::Obj(enc_type_descriptions(x.type_descriptions))),
    ]
}

/// The canonical members of a binary operation record.
pub open spec fn enc_binary_operation(x: BinaryOperation) -> Seq<(Seq<char>, JsonV)>
    decreases x,
{
    seq![
        ("id"@, JsonV::Int(x.id as int)),
        ("leftExpression"@, enc_expr(x.left_expression)),
        ("rightExpression"@, enc_expr(x.right_expression)),
        ("operator"@, JsonV::Str(x.operator@)),
        ("commonType"@, JsonV::Obj(enc_common_type(x.common_type))),
        ("src"@, JsonV::Str(spec_encode_location(x.src))),
        ("isConstant"@, JsonV::Bool(x.is_constant)),
        ("isLValue"@, JsonV::Bool(x.is_l_value)),
        ("isPure"@, JsonV::Bool(x.is_pure)),
        ("lValueRequested"@, JsonV::Bool(x.l_value_requested)),
        ("typeDescriptions"@, JsonV::Obj(enc_type_descriptions(x.type_descriptions))),
    ]
}

/// The canonical members of a conditional record.
pub open spec fn enc_conditional(x: Conditional) -> Seq<(Seq<char>, JsonV)>
    decreases x,
{
    seq![
        ("id"@, JsonV::Int(x.id as int)),
        ("condition"@, enc_expr(x.condition)),
        ("trueExpression"@, enc_expr(x.true_expression)),
        ("falseExpression"@, enc_expr(x.false_expression)),
        ("isConstant"@, JsonV::Bool(x.is_constant)),
        ("isLValue"@, JsonV::Bool(x.is_l_value)),
        ("isPure"@, JsonV::Bool(x.is_pure)),
        ("lValueRequested"@, JsonV::Bool(x.l_value_requested)),
        ("src"@, JsonV::Str(spec_encode_location(x.src))),
        ("typeDescriptions"@, JsonV::Obj(enc_type_descriptions(x.type_descriptions))),
    ]
}

/// The canonical members of a elementary type name expression record.
pub open spec fn enc_elementary_type_name_expression(x: ElementaryTypeNameExpression) -> Seq<(Seq<char>, JsonV)>
{
    seq![
        ("id"@, JsonV::Int(x.id as int)),
        ("typeName"@, JsonV::Obj(enc_elementary_type_name(x.typename))),
        ("src"@, JsonV::Str(spec_encode_location(x.src))),
        ("typeDescriptions"@, JsonV::Obj(enc_type_descriptions(x.type_descriptions))),
        ("argumentTypes"@, opt_arr_type_descriptions_of(x.argument_types)),
    ]
}

/// The canonical members of a function call record.
pub open spec fn enc_function_call(x: FunctionCall) -> Seq<(Seq<char>, JsonV)>
    decreases x,
{
    seq![
        ("id"@, JsonV::Int(x.id as int)),
        ("expression"@, enc_function_call_expression(x.expression)),
        ("arguments"@, JsonV::Arr(seq_expr_of(x.arguments@))),
        ("names"@, JsonV::Arr(strs_of(x.names@))),
        ("kind"@, JsonV::Str(x.kind@)),
        ("src"@, JsonV::Str(spec_encode_location(x.src))),
        ("tryCall"@, JsonV::Bool(x.try_call)),
        ("nameLocations"@, opt_strs_of(x.name_locations)),
        ("isConstant"@, JsonV::Bool(x.is_constant)),
        ("isLValue"@, JsonV::Bool(x.is_l_value)),
        ("isPure"@, JsonV::Bool(x.is_pure)),
        ("lValueRequested"@, JsonV::Bool(x.l_value_requested)),
        ("typeDescriptions"@, JsonV::Obj(enc_type_descriptions(x.type_descriptions))),
        ("argumentTypes"@, opt_arr_type_descriptions_of(x.argument_types)),
    ]
}

/// The canonical members of a index access record.
pub open spec fn enc_index_access(x: IndexAccess) -> Seq<(Seq<char>, JsonV)>
    decreases x,
{
    seq![
        ("id"@, JsonV::Int(x.id as int)),
        ("baseExpression"@, enc_expr(x.base_expression)),
        ("indexExpression"@, opt_expr_of(x.index_expression)),
        ("src"@, JsonV::Str(spec_encode_location(x.src))),
        ("typeDescriptions"@, JsonV::Obj(enc_type_descriptions(x.type_descriptions))),
    ]
}

/// The canonical members of a literal record.
pub open spec fn enc_literal(x: Literal) -> Seq<(Seq<char>, JsonV)>
{
    seq![
        ("id"@, JsonV::Int(x.id as int)),
        ("kind"@, JsonV::Str(spell_lit(x.kind))),
        ("value"@, JsonV::Str(x.value@)),
        ("hexValue"@, opt_str_of(x.hex_value)),
        ("subdenomination"@, opt_str_of(x.subdenomination)),
        ("src"@, JsonV::Str(spec_encode_location(x.src))),
        ("typeDescriptions"@, JsonV::Obj(enc_type_descriptions(x.type_descriptions))),
        ("isConstant"@, JsonV::Bool(x.is_constant)),
        ("isLValue"@, JsonV::Bool(x.is_l_value)),
        ("isPure"@, JsonV::Bool(x.is_pure)),
        ("lValueRequested"@, JsonV::Bool(x.l_value_requested)),
        ("formattedValue"@, opt_str_of(x.formatted_value)),
    ]
}

/// The canonical members of a member access record.
pub open spec fn enc_member_access(x: MemberAccess) -> Seq<(Seq<char>, JsonV)>
    decreases x,
{
    seq![
        ("id"@, JsonV::Int(x.id as int)),
        ("expression"@, enc_expr(x.expression)),
        ("memberName"@, JsonV::Str(x.member_name@)),
        ("memberLocation"@, opt_str_of(x.member_location)),
        ("src"@, JsonV::Str(spec_encode_location(x.src))),
        ("referencedDeclaration"@, opt_int_of(x.referenced_declaration)),
        ("typeDescriptions"@, JsonV::Obj(enc_type_descriptions(x.type_descriptions))),
        ("argumentTypes"@, opt_arr_type_descriptions_of(x.argument_types)),
        ("isConstant"@, JsonV::Bool(x.is_constant)),
        ("isLValue"@, JsonV::Bool(x.is_l_value)),
        ("isPure"@, JsonV::Bool(x.is_pure)),
        ("lValueRequested"@, JsonV::Bool(x.l_value_requested)),
    ]
}

/// The canonical members of a new expression record.
pub open spec fn enc_new_expression(x: NewExpression) -> Seq<(Seq<char>, JsonV)>
    decreases x,
{
    seq![
        ("id"@, JsonV::Int(x.id as int)),
        ("typeName"@, enc_type_name(x.typename)),
        ("arguments"@, opt_arr_expr_of(x.arguments)),
        ("src"@, JsonV::Str(spec_encode_location(x.src))),
        ("typeDescriptions"@, JsonV::Obj(enc_type_descriptions(x.type_descriptions))),
        ("argumentTypes"@, opt_arr_type_descriptions_of(x.argument_types)),
        ("isConstant"@, JsonV::Bool(x.is_constant)),
        ("isLValue"@, JsonV::Bool(x.is_l_value)),
        ("isPure"@, JsonV::Bool(x.is_pure)),
        ("lValueRequested"@, JsonV::Bool(x.l_value_requested)),
    ]
}

/// The canonical members of a tuple expression record.
pub open spec fn enc_tuple_expression(x: TupleExpression) -> Seq<(Seq<char>, JsonV)>
    decreases x,
{
    seq![
        ("id"@, JsonV::Int(x.id as int)),
        ("components"@, JsonV::Arr(seq_opt_expr_of(x.components@))),
        ("src"@, JsonV::Str(spec_encode_location(x.src))),
        ("typeDescriptions"@, JsonV::Obj(enc_type_descriptions(x.type_descriptions))),
    ]
}

/// The canonical members of a unary operation record.
pub open spec fn enc_unary_operation(x: UnaryOperation) -> Seq<(Seq<char>, JsonV)>
    decreases x,
{
    seq![
        ("id"@, JsonV::Int(x.id as int)),
        ("subExpression"@, enc_expr(x.sub_expression)),
        ("operator"@, JsonV::Str(x.operator@)),
        ("isPrefix"@, JsonV::Bool(x.is_prefix)),
        ("src"@, JsonV::Str(spec_encode_location(x.src))),
        ("typeDescriptions"@, JsonV::Obj(enc_type_descriptions(x.type_descriptions))),
        ("isConstant"@, JsonV::Bool(x.is_constant)),
        ("isLValue"@, JsonV::Bool(x.is_l_value)),
        ("isPure"@, JsonV::Bool(x.is_pure)),
        ("lValueRequested"@, JsonV::Bool(x.l_value_requested)),
    ]
}

/// The canonical members of a function call options record.
pub open spec fn enc_function_call_options(x: FunctionCallOptions) -> Seq<(Seq<char>, JsonV)>
    decreases x,
{
    seq![
        ("id"@, JsonV::Int(x.id as int)),
        ("expression"@, enc_expr(x.expression)),
        ("names"@, JsonV::Arr(strs_of(x.names@))),
        ("options"@, JsonV::Arr(seq_expr_of(x.options@))),
        ("src"@, JsonV::Str(spec_encode_location(x.src))),
        ("typeDescriptions"@, JsonV::Obj(enc_type_descriptions(x.type_descriptions))),
        ("nameLocations"@, opt_strs_of(x.name_locations)),
    ]
}

/// The canonical members of a block record.
pub open spec fn enc_block(x: Block) -> Seq<(Seq<char>, JsonV)>
    decreases x,
{
    seq![
        ("id"@, JsonV::Int(x.id as int)),
        ("statements"@, JsonV::Arr(seq_stmt_of(x.statements@))),
        ("src"@, JsonV::Str(spec_encode_location(x.src))),
    ]
}

/// The canonical members of a unchecked block record.
pub open spec fn enc_unchecked_block(x: UncheckedBlock) -> Seq<(Seq<char>, JsonV)>
    decreases x,
{
    seq![
        ("id"@, JsonV::Int(x.id as int)),
        ("statements"@, JsonV::Arr(seq_stmt_of(x.statements@))),
        ("src"@, JsonV::Str(spec_encode_location(x.src))),
    ]
}

/// The canonical members of a break record.
pub open spec fn enc_break_statement(x: Break) -> Seq<(Seq<char>, JsonV)>
{
    seq![
        ("id"@, JsonV::Int(x.id as int)),
        ("src"@, JsonV::Str(spec_encode_location(x.src))),
    ]
}

/// The canonical members of a continue record.
pub open spec fn enc_continue_statement(x: Continue) -> Seq<(Seq<char>, JsonV)>
{
    seq![
        ("id"@, JsonV::Int(x.id as int)),
        ("src"@, JsonV::Str(spec_encode_location(x.src))),
    ]
}

/// The canonical members of a do while statement record.
pub open spec fn enc_do_while_statement(x: DoWhileStatement) -> Seq<(Seq<char>, JsonV)>
    decreases x,
{
    seq![
        ("id"@, JsonV::Int(x.id as int)),
        ("condition"@, enc_expr(x.condition)),
        ("body"@, enc_stmt(x.body)),
        ("src"@, JsonV::Str(spec_encode_location(x.src))),
    ]
}

/// The canonical members of a emit statement record.
pub open spec fn enc_emit_statement(x: EmitStatement) -> Seq<(Seq<char>, JsonV)>
    decreases x,
{
    seq![
        ("id"@, JsonV::Int(x.id as int)),
        ("eventCall"@, JsonV::Obj(enc_function_call(x.event_call))),
        ("src"@, JsonV::Str(spec_encode_location(x.src))),
    ]
}

/// The canonical members of a expression statement record.
pub open spec fn enc_expression_statement(x: ExpressionStatement) -> Seq<(Seq<char>, JsonV)>
    decreases x,
{
    seq![
        ("id"@, JsonV::Int(x.id as int)),
        ("expression"@, enc_expr(x.expression)),
        ("src"@, JsonV::Str(spec_encode_location(x.src))),
    ]
}

/// The canonical members of a for statement record.
pub open spec fn enc_for_statement(x: ForStatement) -> Seq<(Seq<char>, JsonV)>
    decreases x,
{
    seq![
        ("id"@, JsonV::Int(x.id as int)),
        ("initializationExpression"@, opt_expr_of(x.initialization_expression)),
        ("condition"@, opt_expr_of(x.condition)),
        ("loopExpression"@, opt_expr_of(x.loop_expression)),
        ("body"@, enc_stmt(x.body)),
        ("src"@, JsonV::Str(spec_encode_location(x.src))),
    ]
}

/// The canonical members of a if statement record.
pub open spec fn enc_if_statement(x: IfStatement) -> Seq<(Seq<char>, JsonV)>
    decreases x,
{
    seq![
        ("id"@, JsonV::Int(x.id as int)),
        ("condition"@, enc_expr(x.condition)),
        ("trueBody"@, enc_stmt(x.true_body)),
        ("falseBody"@, opt_stmt_of(x.false_body)),
        ("src"@, JsonV::Str(spec_encode_location(x.src))),
    ]
}

/// The canonical members of a inline assembly record.
pub open spec fn enc_inline_assembly(x: InlineAssembly) -> Seq<(Seq<char>, JsonV)>
    decreases x,
{
    seq![
        ("id"@, JsonV::Int(x.id as int)),
        ("operations"@, opt_free_of(x.operations)),
        ("externalReferences"@, opt_arr_external_reference_of(x.external_references)),
        ("src"@, JsonV::Str(spec_encode_location(x.src))),
        ("documentation"@, opt_doc_of(x.documentation)),
        ("flags"@, JsonV::Arr(strs_of(x.flags@))),
    ]
}

/// The canonical members of a placeholder statement record.
pub open spec fn enc_placeholder_statement(x: PlaceholderStatement) -> Seq<(Seq<char>, JsonV)>
{
    seq![
        ("id"@, JsonV::Int(x.id as int)),
        ("src"@, JsonV::Str(spec_encode_location(x.src))),
    ]
}

/// The canonical members of a return record.
pub open spec fn enc_return_statement(x: Return) -> Seq<(Seq<char>, JsonV)>
    decreases x,
{
    seq![
        ("id"@, JsonV::Int(x.id as int)),
        ("functionReturnParameters"@, JsonV::Int(x.function_return_parameters as int)),
        ("expression"@, opt_expr_of(x.expression)),
        ("src"@, JsonV::Str(spec_encode_location(x.src))),
    ]
}

/// The canonical members of a revert statement record.
pub open spec fn enc_revert_statement(x: RevertStatement) -> Seq<(Seq<char>, JsonV)>
    decreases x,
{
    seq![
        ("id"@, JsonV::Int(x.id as int)),
        ("errorCall"@, JsonV::Obj(enc_function_call(x.error_call))),
        ("src"@, JsonV::Str(spec_encode_location(x.src))),
    ]
}

/// The canonical members of a try catch clause record.
pub open spec fn enc_try_catch_clause(x: TryCatchClause) -> Seq<(Seq<char>, JsonV)>
    decreases x,
{
    seq![
        ("id"@, JsonV::Int(x.id as int)),
        ("kind"@, JsonV::Str(x.kind@)),
        ("errorName"@, opt_str_of(x.error_name)),
        ("parameters"@, opt_parameter_list_of(x.parameters)),
        ("block"@, JsonV::Obj(enc_block(x.block))),
        ("src"@, JsonV::Str(spec_encode_location(x.src))),
    ]
}

/// The canonical members of a try statement record.
pub open spec fn enc_try_statement(x: TryStatement) -> Seq<(Seq<char>, JsonV)>
    decreases x,
{
    seq![
        ("id"@, JsonV::Int(x.id as int)),
        ("expression"@, enc_expr(x.expression)),
        ("returnParameters"@, JsonV::Obj(enc_parameter_list(x.return_parameters))),
        ("clauses"@, JsonV::Arr(seq_try_catch_clause_of(x.clauses@))),
        ("src"@, JsonV::Str(spec_encode_location(x.src))),
    ]
}

/// The canonical members of a variable declaration statement record.
pub open spec fn enc_variable_declaration_statement(x: VariableDeclarationStatement) -> Seq<(Seq<char>, JsonV)>
    decreases x,
{
    seq![
        ("id"@, JsonV::Int(x.id as int)),
        ("assignments"@, JsonV::Arr(opt_ints_of(x.assignments@))),
        ("declarations"@, JsonV::Arr(seq_opt_variable_declaration_of(x.declarations@))),
        ("initialValue"@, opt_expr_of(x.initial_value)),
        ("src"@, JsonV::Str(spec_encode_location(x.src))),
        ("documentation"@, opt_doc_of(x.documentation)),
    ]
}

/// The canonical members of a while statement record.
pub open spec fn enc_while_statement(x: WhileStatement) -> Seq<(Seq<char>, JsonV)>
    decreases x,
{
    seq![
        ("id"@, JsonV::Int(x.id as int)),
        ("condition"@, enc_expr(x.condition)),
        ("body"@, enc_stmt(x.body)),
        ("src"@, JsonV::Str(spec_encode_location(x.src))),
    ]
}

/// The canonical members of a variable declaration record.
pub open spec fn enc_variable_declaration(x: VariableDeclaration) -> Seq<(Seq<char>, JsonV)>
    decreases x,
{
    seq![
        ("id"@, JsonV::Int(x.id as int)),
        ("name"@, JsonV::Str(x.name@)),
        ("typeName"@, opt_type_name_of(x.typename)),
        ("src"@, JsonV::Str(spec_encode_location(x.src))),
        ("nameLocation"@, opt_str_of(x.name_location)),
        ("visibility"@, JsonV::Str(spell_vis(x.visibility))),
        ("stateMutability"@, opt_spell_sm_of(x.state_mutability)),
        ("mutability"@, opt_spell_mut_of(x.mutability)),
        ("stateVariable"@, opt_bool_of(x.state_variable)),
        ("storageLocation"@, opt_spell_sl_of(x.storage_location)),
        ("constant"@, opt_bool_of(x.constant)),
        ("immutable"@, opt_bool_of(x.immutable)),
        ("indexed"@, opt_bool_of(x.indexed)),
        ("value"@, opt_expr_of(x.value)),
        ("documentation"@, opt_doc_of(x.documentation)),
        ("typeDescriptions"@, JsonV::Obj(enc_type_descriptions(x.type_descriptions))),
        ("overrides"@, opt_override_specifier_of(x.overrides)),
        ("scope"@, opt_int_of(x.scope)),
    ]
}

/// The first nine canonical members of a variable declaration record.
pub open spec fn enc_variable_declaration_head(x: VariableDeclaration) -> Seq<(Seq<char>, JsonV)> {
    enc_variable_declaration(x).take(9)
}

/// The canonical members of a variable declaration record after the first
/// nine.
pub open spec fn enc_variable_declaration_tail(x: VariableDeclaration) -> Seq<(Seq<char>, JsonV)> {
    enc_variable_declaration(x).skip(9)
}

/// The canonical members of a modifier invocation record.
pub open spec fn enc_modifier_invocation(x: ModifierInvocation) -> Seq<(Seq<char>, JsonV)>
    decreases x,
{
    seq![
        ("id"@, JsonV::Int(x.id as int)),
        ("kind"@, opt_spell_mik_of(x.kind)),
        ("modifierName"@, JsonV::Obj(enc_identifier_path(x.modifier_name))),
        ("arguments"@, opt_arr_expr_of(x.arguments)),
        ("src"@, JsonV::Str(spec_encode_location(x.src))),
    ]
}

/// The canonical members of a function definition record.
pub open spec fn enc_function_definition(x: FunctionDefinition) -> Seq<(Seq<char>, JsonV)>
    decreases x,
{
    seq![
        ("id"@, JsonV::Int(x.id as int)),
        ("name"@, JsonV::Str(x.name@)),
        ("virtual"@, JsonV::Bool(x.is_virtual)),
        ("kind"@, JsonV::Str(spell_fk(x.kind))),
        ("visibility"@, JsonV::Str(spell_vis(x.visibility))),
        ("stateMutability"@, JsonV::Str(spell_sm(x.state_mutability))),
        ("body"@, opt_block_of(x.body)),
        ("parameters"@, JsonV::Obj(enc_parameter_list(x.parameters))),
        ("returnParameters"@, JsonV::Obj(enc_parameter_list(x.return_parameters))),
        ("modifiers"@, JsonV::Arr(seq_modifier_invocation_of(x.modifiers@))),
        ("src"@, JsonV::Str(spec_encode_location(x.src))),
        ("scope"@, JsonV::Int(x.scope as int)),
        ("implemented"@, JsonV::Bool(x.implemented)),
        ("documentation"@, opt_doc_of(x.documentation)),
        ("overrides"@, opt_override_specifier_of(x.overrides)),
        ("baseFunctions"@, opt_arr_ints_of(x.base_functions)),
        ("functionSelector"@, opt_str_of(x.function_selector)),
        ("nameLocation"@, opt_str_of(x.name_location)),
    ]
}

/// The canonical members of a modifier definition record.
pub open spec fn enc_modifier_definition(x: ModifierDefinition) -> Seq<(Seq<char>, JsonV)>
    decreases x,
{
    seq![
        ("id"@, JsonV::Int(x.id as int)),
        ("name"@, JsonV::Str(x.name@)),
        ("virtual"@, JsonV::Bool(x.is_virtual)),
        ("visibility"@, JsonV::Str(spell_vis(x.visibility))),
        ("parameters"@, JsonV::Obj(enc_parameter_list(x.parameters))),
        ("body"@, opt_block_of(x.body)),
        ("src"@, JsonV::Str(spec_encode_location(x.src))),
        ("scope"@, opt_int_of(x.scope)),
        ("documentation"@, opt_doc_of(x.documentation)),
        ("overrides"@, opt_override_specifier_of(x.overrides)),
    ]
}

/// The canonical members of a enum definition record.
pub open spec fn enc_enum_definition(x: EnumDefinition) -> Seq<(Seq<char>, JsonV)>
    decreases x,
{
    seq![
        ("id"@, JsonV::Int(x.id as int)),
        ("name"@, JsonV::Str(x.name@)),
        ("members"@, JsonV::Arr(seq_enum_value_of(x.members@))),
        ("src"@, JsonV::Str(spec_encode_location(x.src))),
        ("scope"@, opt_int_of(x.scope)),
        ("documentation"@, opt_doc_of(x.documentation)),
        ("canonicalName"@, opt_str_of(x.canonical_name)),
    ]
}

/// The canonical members of a user defined value type definition record.
pub open spec fn enc_user_defined_value_type_definition(x: UserDefinedValueTypeDefinition) -> Seq<(Seq<char>, JsonV)>
    decreases x,
{
    seq![
        ("id"@, JsonV::Int(x.id as int)),
        ("name"@, JsonV::Str(x.name@)),
        ("src"@, JsonV::Str(spec_encode_location(x.src))),
        ("canonicalName"@, opt_str_of(x.canonical_name)),
        ("nameLocation"@, opt_str_of(x.name_location)),
        ("underlyingType"@, enc_type_name(x.underlying_type)),
    ]
}

/// The canonical members of a error definition record.
pub open spec fn enc_error_definition(x: ErrorDefinition) -> Seq<(Seq<char>, JsonV)>
    decreases x,
{
    seq![
        ("id"@, JsonV::Int(x.id as int)),
        ("name"@, JsonV::Str(x.name@)),
        ("parameters"@, JsonV::Obj(enc_parameter_list(x.parameters))),
        ("src"@, JsonV::Str(spec_encode_location(x.src))),
        ("scope"@, opt_int_of(x.scope)),
        ("documentation"@, opt_doc_of(x.documentation)),
    ]
}

/// The canonical members of a event definition record.
pub open spec fn enc_event_definition(x: EventDefinition) -> Seq<(Seq<char>, JsonV)>
    decreases x,
{
    seq![
        ("id"@, JsonV::Int(x.id as int)),
        ("name"@, JsonV::Str(x.name@)),
        ("anonymous"@, JsonV::Bool(x.anonymous)),
        ("eventSelector"@, opt_str_of(x.event_selector)),
        ("parameters"@, JsonV::Obj(enc_parameter_list(x.parameters))),
        ("src"@, JsonV::Str(spec_encode_location(x.src))),
        ("scope"@, opt_int_of(x.scope)),
        ("nameLocation"@, opt_str_of(x.name_location)),
        ("documentation"@, opt_doc_of(x.documentation)),
    ]
}

/// The canonical members of a struct definition record.
pub open spec fn enc_struct_definition(x: StructDefinition) -> Seq<(Seq<char>, JsonV)>
    decreases x,
{
    seq![
        ("id"@, JsonV::Int(x.id as int)),
        ("name"@, JsonV::Str(x.name@)),
        ("members"@, JsonV::Arr(seq_variable_declaration_of(x.members@))),
        ("src"@, JsonV::Str(spec_encode_location(x.src))),
        ("scope"@, opt_int_of(x.scope)),
        ("documentation"@, opt_doc_of(x.documentation)),
        ("canonicalName"@, opt_str_of(x.canonical_name)),
        ("usedInEvents"@, opt_bool_of(x.used_in_events)),
    ]
}

/// The canonical members of a inheritance specifier record.
pub open spec fn enc_inheritance_specifier(x: InheritanceSpecifier) -> Seq<(Seq<char>, JsonV)>
    decreases x,
{
    seq![
        ("id"@, JsonV::Int(x.id as int)),
        ("baseName"@, JsonV::Obj(enc_identifier_path(x.base_name))),
        ("arguments"@, opt_arr_expr_of(x.arguments)),
        ("src"@, JsonV::Str(spec_encode_location(x.src))),
    ]
}

/// The canonical members of a using for directive record.
pub open spec fn enc_using_for_directive(x: UsingForDirective) -> Seq<(Seq<char>, JsonV)>
{
    seq![
        ("id"@, JsonV::Int(x.id as int)),
        ("libraryName"@, opt_identifier_path_of(x.library_name)),
        ("typeName"@, opt_user_defined_type_name_of(x.typename)),
        ("operations"@, opt_strs_of(x.operations)),
        ("src"@, JsonV::Str(spec_encode_location(x.src))),
        ("global"@, opt_bool_of(x.global)),
        ("scope"@, opt_int_of(x.scope)),
    ]
}

/// The canonical members of a import directive record.
pub open spec fn enc_import_directive(x: ImportDirective) -> Seq<(Seq<char>, JsonV)>
{
    seq![
        ("id"@, JsonV::Int(x.id as int)),
        ("absolutePath"@, JsonV::Str(x.absolute_path@)),
        ("file"@, JsonV::Str(x.file@)),
        ("unitAlias"@, opt_str_of(x.unit_alias)),
        ("symbolAliases"@, JsonV::Arr(seq_symbol_alias_of(x.symbol_aliases@))),
        ("scope"@, opt_int_of(x.scope)),
        ("sourceUnit"@, opt_int_of(x.source_unit)),
        ("src"@, JsonV::Str(spec_encode_location(x.src))),
        ("nameLocation"@, opt_str_of(x.name_location)),
    ]
}

/// The canonical members of a pragma directive record.
pub open spec fn enc_pragma_directive(x: PragmaDirective) -> Seq<(Seq<char>, JsonV)>
{
    seq![
        ("id"@, JsonV::Int(x.id as int)),
        ("literals"@, JsonV::Arr(strs_of(x.literals@))),
        ("src"@, JsonV::Str(spec_encode_location(x.src))),
    ]
}

/// The canonical members of a contract definition record.
pub open spec fn enc_contract_definition(x: ContractDefinition) -> Seq<(Seq<char>, JsonV)>
    decreases x,
{
    seq![
        ("id"@, JsonV::Int(x.id as int)),
        ("name"@, JsonV::Str(x.name@)),
        ("contractKind"@, JsonV::Str(spell_ck(x.contract_kind))),
        ("abstract"@, JsonV::Bool(x.is_abstract)),
        ("fullyImplemented"@, JsonV::Bool(x.fully_implemented)),
        ("linearizedBaseContracts"@, JsonV::Arr(ints_of(x.linearized_base_contracts@))),
        ("nodes"@, JsonV::Arr(seq_contract_node_of(x.nodes@))),
        ("scope"@, opt_int_of(x.scope)),
        ("src"@, JsonV::Str(spec_encode_location(x.src))),
        ("documentation"@, opt_doc_of(x.documentation)),
        ("baseContracts"@, opt_arr_inheritance_specifier_of(x.base_contracts)),
        ("canonicalName"@, opt_str_of(x.canonical_name)),
        ("contractDependencies"@, opt_arr_ints_of(x.contract_dependencies)),
        ("nameLocation"@, opt_str_of(x.name_location)),
        ("usedErrors"@, opt_arr_ints_of(x.used_errors)),
        ("usedEvents"@, opt_arr_ints_of(x.used_events)),
    ]
}

/// The canonical members of a source unit record.
pub open spec fn enc_source_unit(x: SourceUnit) -> Seq<(Seq<char>, JsonV)>
    decreases x,
{
    seq![
        ("id"@, JsonV::Int(x.id as int)),
        ("absolutePath"@, JsonV::Str(x.absolute_path@)),
        ("exportedSymbols"@, JsonV::Obj(map_ints_of(x.exported_symbols@))),
        ("src"@, JsonV::Str(spec_encode_location(x.src))),
        ("nodes"@, JsonV::Arr(seq_source_unit_node_of(x.nodes@))),
        ("license"@, opt_str_of(x.license)),
    ]
}

/// The canonical form of a expression node: its discriminator, then its record's
/// canonical members.
pub open spec fn enc_expr(e: Expression) -> JsonV
    decreases e,
{
    match e {
        Expression::Assignment(b) => JsonV::Obj(
            seq![("nodeType"@, JsonV::Str("Assignment"@))] + enc_assignment(*b),
        ),
        Expression::BinaryOperation(b) => JsonV::Obj(
            seq![("nodeType"@, JsonV::Str("BinaryOperation"@))] + enc_binary_operation(*b),
        ),
        Expression::Conditional(b) => JsonV::Obj(
            seq![("nodeType"@, JsonV::Str("Conditional"@))] + enc_conditional(*b),
        ),
        Expression::ElementaryTypeNameExpression(b) => JsonV::Obj(
            seq![("nodeType"@, JsonV::Str("ElementaryTypeNameExpression"@))] + enc_elementary_type_name_expression(*b),
        ),
        Expression::FunctionCall(b) => JsonV::Obj(
            seq![("nodeType"@, JsonV::Str("FunctionCall"@))] + enc_function_call(*b),
        ),
        Expression::Identifier(b) => JsonV::Obj(enc_identifier(*b)),
        Expression::IndexAccess(b) => JsonV::Obj(
            seq![("nodeType"@, JsonV::Str("IndexAccess"@))] + enc_index_access(*b),
        ),
        Expression::Literal(b) => JsonV::Obj(
            seq![("nodeType"@, JsonV::Str("Literal"@))] + enc_literal(*b),
        ),
        Expression::MemberAccess(b) => JsonV::Obj(
            seq![("nodeType"@, JsonV::Str("MemberAccess"@))] + enc_member_access(*b),
        ),
        Expression::NewExpression(b) => JsonV::Obj(
            seq![("nodeType"@, JsonV::Str("NewExpression"@))] + enc_new_expression(*b),
        ),
        Expression::TupleExpression(b) => JsonV::Obj(
            seq![("nodeType"@, JsonV::Str("TupleExpression"@))] + enc_tuple_expression(*b),
        ),
        Expression::UnaryOperation(b) => JsonV::Obj(
            seq![("nodeType"@, JsonV::Str("UnaryOperation"@))] + enc_unary_operation(*b),
        ),
        Expression::VariableDeclarationStatement(b) => JsonV::Obj(
            seq![("nodeType"@, JsonV::Str("VariableDeclarationStatement"@))] + enc_variable_declaration_statement(*b),
        ),
        Expression::ExpressionStatement(b) => JsonV::Obj(
            seq![("nodeType"@, JsonV::Str("ExpressionStatement"@))] + enc_expression_statement(*b),
        ),
    }
}

/// The canonical form of a statement node: its discriminator, then its record's
/// canonical members.
pub open spec fn enc_stmt(e: Statement) -> JsonV
    decreases e,
{
    match e {
        Statement::Block(b) => JsonV::Obj(
            seq![("nodeType"@, JsonV::Str("Block"@))] + enc_block(*b),
        ),
        Statement::Break(b) => JsonV::Obj(
            seq![("nodeType"@, JsonV::Str("Break"@))] + enc_break_statement(*b),
        ),
        Statement::Continue(b) => JsonV::Obj(
            seq![("nodeType"@, JsonV::Str("Continue"@))] + enc_continue_statement(*b),
        ),
        Statement::DoWhileStatement(b) => JsonV::Obj(
            seq![("nodeType"@, JsonV::Str("DoWhileStatement"@))] + enc_do_while_statement(*b),
        ),
        Statement::EmitStatement(b) => JsonV::Obj(
            seq![("nodeType"@, JsonV::Str("EmitStatement"@))] + enc_emit_statement(*b),
        ),
        Statement::ExpressionStatement(b) => JsonV::Obj(
            seq![("nodeType"@, JsonV::Str("ExpressionStatement"@))] + enc_expression_statement(*b),
        ),
        Statement::ForStatement(b) => JsonV::Obj(
            seq![("nodeType"@, JsonV::Str("ForStatement"@))] + enc_for_statement(*b),
        ),
        Statement::IfStatement(b) => JsonV::Obj(
            seq![("nodeType"@, JsonV::Str("IfStatement"@))] + enc_if_statement(*b),
        ),
        Statement::InlineAssembly(b) => JsonV::Obj(
            seq![("nodeType"@, JsonV::Str("InlineAssembly"@))] + enc_inline_assembly(*b),
        ),
        Statement::PlaceholderStatement(b) => JsonV::Obj(
            seq![("nodeType"@, JsonV::Str("PlaceholderStatement"@))] + enc_placeholder_statement(*b),
        ),
        Statement::Return(b) => JsonV::Obj(
            seq![("nodeType"@, JsonV::Str("Return"@))] + enc_return_statement(*b),
        ),
        Statement::RevertStatement(b) => JsonV::Obj(
            seq![("nodeType"@, JsonV::Str("RevertStatement"@))] + enc_revert_statement(*b),
        ),
        Statement::TryStatement(b) => JsonV::Obj(
            seq![("nodeType"@, JsonV::Str("TryStatement"@))] + enc_try_statement(*b),
        ),
        Statement::UncheckedBlock(b) => JsonV::Obj(
            seq![("nodeType"@, JsonV::Str("UncheckedBlock"@))] + enc_unchecked_block(*b),
        ),
        Statement::VariableDeclarationStatement(b) => JsonV::Obj(
            seq![("nodeType"@, JsonV::Str("VariableDeclarationStatement"@))] + enc_variable_declaration_statement(*b),
        ),
        Statement::WhileStatement(b) => JsonV::Obj(
            seq![("nodeType"@, JsonV::Str("WhileStatement"@))] + enc_while_statement(*b),
        ),
    }
}

/// The canonical form of a type name node: its discriminator, then its record's
/// canonical members.
pub open spec fn enc_type_name(e: TypeName) -> JsonV
    decreases e,
{
    match e {
        TypeName::ArrayTypeName(b) => JsonV::Obj(
            seq![("nodeType"@, JsonV::Str("ArrayTypeName"@))] + enc_array_type_name(*b),
        ),
        TypeName::ElementaryTypeName(b) => JsonV::Obj(enc_elementary_type_name(*b)),
        TypeName::FunctionTypeName(b) => JsonV::Obj(
            seq![("nodeType"@, JsonV::Str("FunctionTypeName"@))] + enc_function_type_name(*b),
        ),
        TypeName::Mapping(b) => JsonV::Obj(
            seq![("nodeType"@, JsonV::Str("Mapping"@))] + enc_mapping(*b),
        ),
        TypeName::UserDefinedTypeName(b) => JsonV::Obj(
            seq![("nodeType"@, JsonV::Str("UserDefinedTypeName"@))] + enc_user_defined_type_name(*b),
        ),
    }
}

/// The canonical form of a function call expression node: its discriminator, then its record's
/// canonical members.
pub open spec fn enc_function_call_expression(e: FunctionCallExpression) -> JsonV
    decreases e,
{
    match e {
        FunctionCallExpression::ElementaryTypeNameExpression(b) => JsonV::Obj(
            seq![("nodeType"@, JsonV::Str("ElementaryTypeNameExpression"@))] + enc_elementary_type_name_expression(*b),
        ),
        FunctionCallExpression::FunctionCall(b) => JsonV::Obj(
            seq![("nodeType"@, JsonV::Str("FunctionCall"@))] + enc_function_call(*b),
        ),
        FunctionCallExpression::FunctionCallOptions(b) => JsonV::Obj(
            seq![("nodeType"@, JsonV::Str("FunctionCallOptions"@))] + enc_function_call_options(*b),
        ),
        FunctionCallExpression::Identifier(b) => JsonV::Obj(enc_identifier(*b)),
        FunctionCallExpression::MemberAccess(b) => JsonV::Obj(
            seq![("nodeType"@, JsonV::Str("MemberAccess"@))] + enc_member_access(*b),
        ),
        FunctionCallExpression::NewExpression(b) => JsonV::Obj(
            seq![("nodeType"@, JsonV::Str("NewExpression"@))] + enc_new_expression(*b),
        ),
    }
}

/// The canonical form of a source unit node node: its discriminator, then its record's
/// canonical members.
pub open spec fn enc_source_unit_node(e: SourceUnitNode) -> JsonV
    decreases e,
{
    match e {
        SourceUnitNode::ContractDefinition(b) => JsonV::Obj(
            seq![("nodeType"@, JsonV::Str("ContractDefinition"@))] + enc_contract_definition(*b),
        ),
        SourceUnitNode::EnumDefinition(b) => JsonV::Obj(
            seq![("nodeType"@, JsonV::Str("EnumDefinition"@))] + enc_enum_definition(*b),
        ),
        SourceUnitNode::ErrorDefinition(b) => JsonV::Obj(
            seq![("nodeType"@, JsonV::Str("ErrorDefinition"@))] + enc_error_definition(*b),
        ),
        SourceUnitNode::EventDefinition(b) => JsonV::Obj(
            seq![("nodeType"@, JsonV::Str("EventDefinition"@))] + enc_event_definition(*b),
        ),
        SourceUnitNode::FunctionDefinition(b) => JsonV::Obj(
            seq![("nodeType"@, JsonV::Str("FunctionDefinition"@))] + enc_function_definition(*b),
        ),
        SourceUnitNode::ImportDirective(b) => JsonV::Obj(
            seq![("nodeType"@, JsonV::Str("ImportDirective"@))] + enc_import_directive(*b),
        ),
        SourceUnitNode::PragmaDirective(b) => JsonV::Obj(
            seq![("nodeType"@, JsonV::Str("PragmaDirective"@))] + enc_pragma_directive(*b),
        ),
        SourceUnitNode::StructDefinition(b) => JsonV::Obj(
            seq![("nodeType"@, JsonV::Str("StructDefinition"@))] + enc_struct_definition(*b),
        ),
        SourceUnitNode::UserDefinedValueTypeDefinition(b) => JsonV::Obj(
            seq![("nodeType"@, JsonV::Str("UserDefinedValueTypeDefinition"@))] + enc_user_defined_value_type_definition(*b),
        ),
        SourceUnitNode::UsingForDirective(b) => JsonV::Obj(
            seq![("nodeType"@, JsonV::Str("UsingForDirective"@))] + enc_using_for_directive(*b),
        ),
        SourceUnitNode::VariableDeclaration(b) => JsonV::Obj(
            seq![("nodeType"@, JsonV::Str("VariableDeclaration"@))] + enc_variable_declaration(*b),
        ),
    }
}

/// The canonical form of a contract definition node node: its discriminator, then its record's
/// canonical members.
pub open spec fn enc_contract_node(e: ContractDefinitionNode) -> JsonV
    decreases e,
{
    match e {
        ContractDefinitionNode::EnumDefinition(b) => JsonV::Obj(
            seq![("nodeType"@, JsonV::Str("EnumDefinition"@))] + enc_enum_definition(*b),
        ),
        ContractDefinitionNode::ErrorDefinition(b) => JsonV::Obj(
            seq![("nodeType"@, JsonV::Str("ErrorDefinition"@))] + enc_error_definition(*b),
        ),
        ContractDefinitionNode::EventDefinition(b) => JsonV::Obj(
            seq![("nodeType"@, JsonV::Str("EventDefinition"@))] + enc_event_definition(*b),
        ),
        ContractDefinitionNode::FunctionDefinition(b) => JsonV::Obj(
            seq![("nodeType"@, JsonV::Str("FunctionDefinition"@))] + enc_function_definition(*b),
        ),
        ContractDefinitionNode::ModifierDefinition(b) => JsonV::Obj(
            seq![("nodeType"@, JsonV::Str("ModifierDefinition"@))] + enc_modifier_definition(*b),
        ),
        ContractDefinitionNode::StructDefinition(b) => JsonV::Obj(
            seq![("nodeType"@, JsonV::Str("StructDefinition"@))] + enc_struct_definition(*b),
        ),
        ContractDefinitionNode::UsingForDirective(b) => JsonV::Obj(
            seq![("nodeType"@, JsonV::Str("UsingForDirective"@))] + enc_using_for_directive(*b),
        ),
        ContractDefinitionNode::VariableDeclaration(b) => JsonV::Obj(
            seq![("nodeType"@, JsonV::Str("VariableDeclaration"@))] + enc_variable_declaration(*b),
        ),
    }
}

/// The canonical form of a type descriptions record is its own canonical
/// form: re-decoding what was encoded changes nothing.
pub proof fn lemma_fix_type_descriptions(x: TypeDescriptions)
    ensures
        canon_fields(enc_type_descriptions(x), schema(RecId::RTypeDescriptions), 0) == Ok::<
            Seq<(Seq<char>, JsonV)>,
            ErrV,
        >(enc_type_descriptions(x)),
{
    let enc = enc_type_descriptions(x);
    let fs = schema(RecId::RTypeDescriptions);
    reveal_strlit("typeIdentifier");
    reveal_strlit("typeString");
    let outs: Seq<(Seq<char>, Option<JsonV>)> = seq![
        ("typeIdentifier"@, omit_str_of(x.type_identifier)),
        ("typeString"@, omit_str_of(x.type_string)),
    ];
    assert(canon_field(enc, "typeIdentifier"@, FieldKind::KOptStrOmit) == Ok::<
        Option<JsonV>,
        ErrV,
    >(omit_str_of(x.type_identifier))) by {
        reveal(crate::ast::canon::canon_field);
        reveal(crate::ast::canon::canon_value);
        reveal_strlit("typeIdentifier");
        reveal_strlit("typeString");
        assert("typeIdentifier"@.len() == 14);
        assert("typeString"@.len() == 10);
        match x.type_identifier {
            Some(st) => {
                crate::json::lemma_lookup_at(enc, "typeIdentifier"@, 0);
            },
            None => {
                crate::json::lemma_lookup_absent(enc, "typeIdentifier"@);
            },
        }
    }
    assert(canon_field(enc, "typeString"@, FieldKind::KOptStrOmit) == Ok::<Option<JsonV>, ErrV>(
        omit_str_of(x.type_string),
    )) by {
        reveal(crate::ast::canon::canon_field);
        reveal(crate::ast::canon::canon_value);
        reveal_strlit("typeIdentifier");
        reveal_strlit("typeString");
        assert("typeIdentifier"@.len() == 14);
        assert("typeString"@.len() == 10);
        match x.type_string {
            Some(st) => {
                match x.type_identifier {
                    Some(_) => {
                        crate::json::lemma_lookup_at(enc, "typeString"@, 1);
                    },
                    None => {
                        crate::json::lemma_lookup_at(enc, "typeString"@, 0);
                    },
                }
            },
            None => {
                crate::json::lemma_lookup_absent(enc, "typeString"@);
            },
        }
    }
    assert forall|j: int| 0 <= j < fs.len() implies (#[trigger] outs[j]).0 == fs[j].0
        && canon_field(enc, fs[j].0, fs[j].1) == Ok::<Option<JsonV>, ErrV>(outs[j].1) by {}
    lemma_canon_fields_ok(enc, fs, outs, 0);
    assert(cat_opts(outs, 0) =~= enc) by {
        reveal_with_fuel(cat_opts, 4);
    }
}

/// Every element of a sequence of canonical type descriptions
/// canonicalizes to itself.
pub proof fn lemma_fix_tds(s: Seq<TypeDescriptions>)
    ensures
        canon_elems(seq_type_descriptions_of(s), 0, FieldKind::KChild(Child::CRec(RecId::RTypeDescriptions)))
            == Ok::<Seq<JsonV>, ErrV>(seq_type_descriptions_of(s)),
{
    let ek = FieldKind::KChild(Child::CRec(RecId::RTypeDescriptions));
    assert forall|j: int| 0 <= j < seq_type_descriptions_of(s).len() implies crate::ast::canon::canon_value(
        #[trigger] seq_type_descriptions_of(s)[j],
        ek,
    ) == Ok::<JsonV, ErrV>(seq_type_descriptions_of(s)[j]) by {
        reveal_with_fuel(crate::ast::canon::canon_value, 6);
        lemma_fix_type_descriptions(s[j]);
        assert(seq_type_descriptions_of(s)[j] == JsonV::Obj(enc_type_descriptions(s[j])));
    }
    crate::ast::fields::lemma_canon_elems_ok(seq_type_descriptions_of(s), ek);
    assert(canon_elems(seq_type_descriptions_of(s), 0, ek)->Ok_0 =~= seq_type_descriptions_of(s));
}

/// An array of canonical integers canonicalizes to itself.
pub proof fn lemma_fix_ints(s: Seq<i64>)
    ensures
        canon_elems(ints_of(s), 0, FieldKind::KI64) == Ok::<Seq<JsonV>, ErrV>(ints_of(s)),
{
    assert forall|j: int| 0 <= j < ints_of(s).len() implies crate::ast::canon::canon_value(
        #[trigger] ints_of(s)[j],
        FieldKind::KI64,
    ) == Ok::<JsonV, ErrV>(ints_of(s)[j]) by {
        reveal(crate::ast::canon::canon_value);
    }
    crate::ast::fields::lemma_canon_elems_ok(ints_of(s), FieldKind::KI64);
    assert(canon_elems(ints_of(s), 0, FieldKind::KI64)->Ok_0 =~= ints_of(s));
}

} // verus!
