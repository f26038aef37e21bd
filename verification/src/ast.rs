//! Typed nodes of the Solidity AST.

pub use common::{SourceLocation, TypeDescriptions};
pub use identifier::Identifier;
pub use error::Error;
pub use types::{ElementaryType, ElementaryTypeName};

pub mod canon;
pub mod dec_decl;
pub mod dec_expr;
pub mod dec_leaf;
pub mod dec_stmt;
pub mod dec_type;
pub mod enc_node;
pub mod locate;
pub mod shape;
pub mod common;
pub mod error;
pub mod fields;
pub mod identifier;
pub mod types;

use vstd::prelude::*;

verus! {

/// An expression statement: an expression evaluated for its effect.
#[derive(Debug, PartialEq, Eq)]
pub struct ExpressionStatement {
    /// Unique identifier assigned by the compiler.
    pub id: i64,
    /// The evaluated expression.
    pub expression: Expression,
    /// Source location information.
    pub src: SourceLocation,
}

/// An expression node, discriminated by its `"nodeType"`.
#[derive(Debug, PartialEq, Eq)]
pub enum Expression {
    Assignment(Box<Assignment>),
    BinaryOperation(Box<BinaryOperation>),
    Conditional(Box<Conditional>),
    ElementaryTypeNameExpression(Box<ElementaryTypeNameExpression>),
    FunctionCall(Box<FunctionCall>),
    Identifier(Box<Identifier>),
    IndexAccess(Box<IndexAccess>),
    Literal(Box<Literal>),
    MemberAccess(Box<MemberAccess>),
    NewExpression(Box<NewExpression>),
    TupleExpression(Box<TupleExpression>),
    UnaryOperation(Box<UnaryOperation>),
    VariableDeclarationStatement(Box<VariableDeclarationStatement>),
    ExpressionStatement(Box<ExpressionStatement>),
}

} // verus!

verus! {

/// The compiler's type information for a binary operation's common type.
#[derive(Debug, PartialEq, Eq)]
pub struct CommonType {
    pub type_identifier: String,
    pub type_string: String,
}

/// A documentation member: producers emit either a bare string or a
/// structured record for the same logical field.
#[derive(Debug, PartialEq, Eq)]
pub enum Documentation {
    String(String),
    Structured(StructuredDocumentation),
}

/// The kind of a contract definition.
#[derive(Debug, PartialEq, Eq, Structural)]
pub enum ContractKind {
    Contract,
    Interface,
    Library,
}

/// The kind of a function definition.
#[derive(Debug, PartialEq, Eq, Structural)]
pub enum FunctionKind {
    Constructor,
    Function,
    Receive,
    Fallback,
    FreeFunction,
}

/// The visibility of a declaration.
#[derive(Debug, PartialEq, Eq, Structural)]
pub enum Visibility {
    External,
    Public,
    Internal,
    Private,
}

/// The state mutability of a function or variable.
#[derive(Debug, PartialEq, Eq, Structural)]
pub enum StateMutability {
    Pure,
    View,
    Nonpayable,
    Payable,
}

/// Where a variable is stored.
#[derive(Debug, PartialEq, Eq, Structural)]
pub enum StorageLocation {
    Default,
    Memory,
    Storage,
    Calldata,
}

/// The mutability of a state variable.
#[derive(Debug, PartialEq, Eq, Structural)]
pub enum Mutability {
    Mutable,
    Immutable,
    Constant,
}

/// The kind of a literal expression.
#[derive(Debug, PartialEq, Eq, Structural)]
pub enum LiteralKind {
    Bool,
    Number,
    String,
    HexString,
    UnicodeString,
}

/// One parsed source file: the root of its syntax tree, owning the ordered
/// top-level nodes.
#[derive(Debug, PartialEq, Eq)]
pub struct SourceUnit {
    pub id: i64,
    pub absolute_path: String,
    /// Exported symbol names, each with its declaration identities.
    pub exported_symbols: Vec<(String, Vec<i64>)>,
    pub src: SourceLocation,
    pub nodes: Vec<SourceUnitNode>,
    pub license: Option<String>,
}

/// A top-level node of a source unit.
#[derive(Debug, PartialEq, Eq)]
pub enum SourceUnitNode {
    ContractDefinition(Box<ContractDefinition>),
    EnumDefinition(Box<EnumDefinition>),
    ErrorDefinition(Box<ErrorDefinition>),
    EventDefinition(Box<EventDefinition>),
    FunctionDefinition(Box<FunctionDefinition>),
    ImportDirective(Box<ImportDirective>),
    PragmaDirective(Box<PragmaDirective>),
    StructDefinition(Box<StructDefinition>),
    UserDefinedValueTypeDefinition(Box<UserDefinedValueTypeDefinition>),
    UsingForDirective(Box<UsingForDirective>),
    VariableDeclaration(Box<VariableDeclaration>),
}

/// A node directly inside a contract definition.
#[derive(Debug, PartialEq, Eq)]
pub enum ContractDefinitionNode {
    EnumDefinition(Box<EnumDefinition>),
    ErrorDefinition(Box<ErrorDefinition>),
    EventDefinition(Box<EventDefinition>),
    FunctionDefinition(Box<FunctionDefinition>),
    ModifierDefinition(Box<ModifierDefinition>),
    StructDefinition(Box<StructDefinition>),
    UsingForDirective(Box<UsingForDirective>),
    VariableDeclaration(Box<VariableDeclaration>),
}

/// A statement node.
#[derive(Debug, PartialEq, Eq)]
pub enum Statement {
    Block(Box<Block>),
    Break(Box<Break>),
    Continue(Box<Continue>),
    DoWhileStatement(Box<DoWhileStatement>),
    EmitStatement(Box<EmitStatement>),
    ExpressionStatement(Box<ExpressionStatement>),
    ForStatement(Box<ForStatement>),
    IfStatement(Box<IfStatement>),
    InlineAssembly(Box<InlineAssembly>),
    PlaceholderStatement(Box<PlaceholderStatement>),
    Return(Box<Return>),
    RevertStatement(Box<RevertStatement>),
    TryStatement(Box<TryStatement>),
    UncheckedBlock(Box<UncheckedBlock>),
    VariableDeclarationStatement(Box<VariableDeclarationStatement>),
    WhileStatement(Box<WhileStatement>),
}

/// A type name node.
#[derive(Debug, PartialEq, Eq)]
pub enum TypeName {
    ArrayTypeName(Box<ArrayTypeName>),
    ElementaryTypeName(Box<ElementaryTypeName>),
    FunctionTypeName(Box<FunctionTypeName>),
    Mapping(Box<Mapping>),
    UserDefinedTypeName(Box<UserDefinedTypeName>),
}

/// The callee position of a function call.
#[derive(Debug, PartialEq, Eq)]
pub enum FunctionCallExpression {
    ElementaryTypeNameExpression(Box<ElementaryTypeNameExpression>),
    FunctionCall(Box<FunctionCall>),
    FunctionCallOptions(Box<FunctionCallOptions>),
    Identifier(Box<Identifier>),
    MemberAccess(Box<MemberAccess>),
    NewExpression(Box<NewExpression>),
}

/// A contract, interface or library definition.
#[derive(Debug, PartialEq, Eq)]
pub struct ContractDefinition {
    pub id: i64,
    pub name: String,
    pub contract_kind: ContractKind,
    pub is_abstract: bool,
    pub fully_implemented: bool,
    pub linearized_base_contracts: Vec<i64>,
    pub nodes: Vec<ContractDefinitionNode>,
    pub scope: Option<i64>,
    pub src: SourceLocation,
    pub documentation: Option<Documentation>,
    pub base_contracts: Option<Vec<InheritanceSpecifier>>,
    pub canonical_name: Option<String>,
    pub contract_dependencies: Option<Vec<i64>>,
    pub name_location: Option<String>,
    pub used_errors: Option<Vec<i64>>,
    pub used_events: Option<Vec<i64>>,
}

/// A variable declaration, as a declaration node or a parameter.
#[derive(Debug, PartialEq, Eq)]
pub struct VariableDeclaration {
    pub id: i64,
    pub name: String,
    pub typename: Option<TypeName>,
    pub src: SourceLocation,
    pub name_location: Option<String>,
    pub visibility: Visibility,
    pub state_mutability: Option<StateMutability>,
    pub mutability: Option<Mutability>,
    pub state_variable: Option<bool>,
    pub storage_location: Option<StorageLocation>,
    pub constant: Option<bool>,
    pub immutable: Option<bool>,
    pub indexed: Option<bool>,
    pub value: Option<Expression>,
    pub documentation: Option<Documentation>,
    pub type_descriptions: TypeDescriptions,
    pub overrides: Option<OverrideSpecifier>,
    pub scope: Option<i64>,
}

/// A binary operation expression.
#[derive(Debug, PartialEq, Eq)]
pub struct BinaryOperation {
    pub id: i64,
    pub left_expression: Expression,
    pub right_expression: Expression,
    pub operator: String,
    pub common_type: CommonType,
    pub src: SourceLocation,
    pub is_constant: bool,
    pub is_l_value: bool,
    pub is_pure: bool,
    pub l_value_requested: bool,
    pub type_descriptions: TypeDescriptions,
}

/// A function call expression.
#[derive(Debug, PartialEq, Eq)]
pub struct FunctionCall {
    pub id: i64,
    pub expression: FunctionCallExpression,
    pub arguments: Vec<Expression>,
    pub names: Vec<String>,
    pub kind: String,
    pub src: SourceLocation,
    pub try_call: bool,
    pub name_locations: Option<Vec<String>>,
    pub is_constant: bool,
    pub is_l_value: bool,
    pub is_pure: bool,
    pub l_value_requested: bool,
    pub type_descriptions: TypeDescriptions,
    pub argument_types: Option<Vec<TypeDescriptions>>,
}

/// A conditional statement.
#[derive(Debug, PartialEq, Eq)]
pub struct IfStatement {
    pub id: i64,
    pub condition: Expression,
    pub true_body: Statement,
    pub false_body: Option<Statement>,
    pub src: SourceLocation,
}

/// A block of statements.
#[derive(Debug, PartialEq, Eq)]
pub struct Block {
    pub id: i64,
    pub statements: Vec<Statement>,
    pub src: SourceLocation,
}

/// A conditional expression.
#[derive(Debug, PartialEq, Eq)]
pub struct Conditional {
    pub id: i64,
    pub condition: Expression,
    pub true_expression: Expression,
    pub false_expression: Expression,
    pub is_constant: bool,
    pub is_l_value: bool,
    pub is_pure: bool,
    pub l_value_requested: bool,
    pub src: SourceLocation,
    pub type_descriptions: TypeDescriptions,
}

/// A variable declaration statement.
#[derive(Debug, PartialEq, Eq)]
pub struct VariableDeclarationStatement {
    pub id: i64,
    pub assignments: Vec<Option<i64>>,
    pub declarations: Vec<Option<VariableDeclaration>>,
    pub initial_value: Option<Expression>,
    pub src: SourceLocation,
    pub documentation: Option<Documentation>,
}

/// A function definition.
#[derive(Debug, PartialEq, Eq)]
pub struct FunctionDefinition {
    pub id: i64,
    pub name: String,
    pub is_virtual: bool,
    pub kind: FunctionKind,
    pub visibility: Visibility,
    pub state_mutability: StateMutability,
    pub body: Option<Block>,
    pub parameters: ParameterList,
    pub return_parameters: ParameterList,
    pub modifiers: Vec<ModifierInvocation>,
    pub src: SourceLocation,
    pub scope: i64,
    pub implemented: bool,
    pub documentation: Option<Documentation>,
    pub overrides: Option<OverrideSpecifier>,
    pub base_functions: Option<Vec<i64>>,
    pub function_selector: Option<String>,
    pub name_location: Option<String>,
}

/// A member access expression.
#[derive(Debug, PartialEq, Eq)]
pub struct MemberAccess {
    pub id: i64,
    pub expression: Expression,
    pub member_name: String,
    pub member_location: Option<String>,
    pub src: SourceLocation,
    pub referenced_declaration: Option<i64>,
    pub type_descriptions: TypeDescriptions,
    pub argument_types: Option<Vec<TypeDescriptions>>,
    pub is_constant: bool,
    pub is_l_value: bool,
    pub is_pure: bool,
    pub l_value_requested: bool,
}

/// A unary operation expression.
#[derive(Debug, PartialEq, Eq)]
pub struct UnaryOperation {
    pub id: i64,
    pub sub_expression: Expression,
    pub operator: String,
    pub is_prefix: bool,
    pub src: SourceLocation,
    pub type_descriptions: TypeDescriptions,
    pub is_constant: bool,
    pub is_l_value: bool,
    pub is_pure: bool,
    pub l_value_requested: bool,
}

/// An assignment expression.
#[derive(Debug, PartialEq, Eq)]
pub struct Assignment {
    pub id: i64,
    pub left_hand_side: Expression,
    pub right_hand_side: Expression,
    pub operator: String,
    pub src: SourceLocation,
    pub type_descriptions: TypeDescriptions,
}

/// An index access expression.
#[derive(Debug, PartialEq, Eq)]
pub struct IndexAccess {
    pub id: i64,
    pub base_expression: Expression,
    pub index_expression: Option<Expression>,
    pub src: SourceLocation,
    pub type_descriptions: TypeDescriptions,
}

/// A tuple expression.
#[derive(Debug, PartialEq, Eq)]
pub struct TupleExpression {
    pub id: i64,
    pub components: Vec<Option<Expression>>,
    pub src: SourceLocation,
    pub type_descriptions: TypeDescriptions,
}

/// A return statement.
#[derive(Debug, PartialEq, Eq)]
pub struct Return {
    pub id: i64,
    pub function_return_parameters: i64,
    pub expression: Option<Expression>,
    pub src: SourceLocation,
}

/// An unchecked block.
#[derive(Debug, PartialEq, Eq)]
pub struct UncheckedBlock {
    pub id: i64,
    pub statements: Vec<Statement>,
    pub src: SourceLocation,
}

/// A for loop.
#[derive(Debug, PartialEq, Eq)]
pub struct ForStatement {
    pub id: i64,
    pub initialization_expression: Option<Expression>,
    pub condition: Option<Expression>,
    pub loop_expression: Option<Expression>,
    pub body: Statement,
    pub src: SourceLocation,
}

/// A mapping type name.
#[derive(Debug, PartialEq, Eq)]
pub struct Mapping {
    pub id: i64,
    pub key_type: TypeName,
    pub value_type: TypeName,
    pub src: SourceLocation,
}

/// An array type name.
#[derive(Debug, PartialEq, Eq)]
pub struct ArrayTypeName {
    pub id: i64,
    pub base_type: TypeName,
    pub length: Option<Expression>,
    pub src: SourceLocation,
}

/// A while loop.
#[derive(Debug, PartialEq, Eq)]
pub struct WhileStatement {
    pub id: i64,
    pub condition: Expression,
    pub body: Statement,
    pub src: SourceLocation,
}

/// A modifier definition.
#[derive(Debug, PartialEq, Eq)]
pub struct ModifierDefinition {
    pub id: i64,
    pub name: String,
    pub is_virtual: bool,
    pub visibility: Visibility,
    pub parameters: ParameterList,
    pub body: Option<Block>,
    pub src: SourceLocation,
    pub scope: Option<i64>,
    pub documentation: Option<Documentation>,
    pub overrides: Option<OverrideSpecifier>,
}

/// How a modifier invocation is used.
#[derive(Debug, PartialEq, Eq, Structural)]
pub enum ModifierInvocationKind {
    Modifier,
    BaseConstructorSpecifier,
    ModifierInvocation,
}

/// A modifier invocation on a function definition.
#[derive(Debug, PartialEq, Eq)]
pub struct ModifierInvocation {
    pub id: i64,
    pub kind: Option<ModifierInvocationKind>,
    pub modifier_name: IdentifierPath,
    pub arguments: Option<Vec<Expression>>,
    pub src: SourceLocation,
}

/// A `new` expression.
#[derive(Debug, PartialEq, Eq)]
pub struct NewExpression {
    pub id: i64,
    pub typename: TypeName,
    pub arguments: Option<Vec<Expression>>,
    pub src: SourceLocation,
    pub type_descriptions: TypeDescriptions,
    pub argument_types: Option<Vec<TypeDescriptions>>,
    pub is_constant: bool,
    pub is_l_value: bool,
    pub is_pure: bool,
    pub l_value_requested: bool,
}

/// An enum definition.
#[derive(Debug, PartialEq, Eq)]
pub struct EnumDefinition {
    pub id: i64,
    pub name: String,
    pub members: Vec<EnumValue>,
    pub src: SourceLocation,
    pub scope: Option<i64>,
    pub documentation: Option<Documentation>,
    pub canonical_name: Option<String>,
}

/// A user-defined value type definition.
#[derive(Debug, PartialEq, Eq)]
pub struct UserDefinedValueTypeDefinition {
    pub id: i64,
    pub name: String,
    pub src: SourceLocation,
    pub canonical_name: Option<String>,
    pub name_location: Option<String>,
    pub underlying_type: TypeName,
}

/// An error definition.
#[derive(Debug, PartialEq, Eq)]
pub struct ErrorDefinition {
    pub id: i64,
    pub name: String,
    pub parameters: ParameterList,
    pub src: SourceLocation,
    pub scope: Option<i64>,
    pub documentation: Option<Documentation>,
}

/// An event definition.
#[derive(Debug, PartialEq, Eq)]
pub struct EventDefinition {
    pub id: i64,
    pub name: String,
    pub anonymous: bool,
    pub event_selector: Option<String>,
    pub parameters: ParameterList,
    pub src: SourceLocation,
    pub scope: Option<i64>,
    pub name_location: Option<String>,
    pub documentation: Option<Documentation>,
}

/// A function type name.
#[derive(Debug, PartialEq, Eq)]
pub struct FunctionTypeName {
    pub id: i64,
    pub parameter_types: Vec<TypeName>,
    pub return_parameter_types: Vec<TypeName>,
    pub visibility: String,
    pub state_mutability: String,
    pub src: SourceLocation,
}

/// A struct definition.
#[derive(Debug, PartialEq, Eq)]
pub struct StructDefinition {
    pub id: i64,
    pub name: String,
    pub members: Vec<VariableDeclaration>,
    pub src: SourceLocation,
    pub scope: Option<i64>,
    pub documentation: Option<Documentation>,
    pub canonical_name: Option<String>,
    pub used_in_events: Option<bool>,
}

/// One clause of a try statement.
#[derive(Debug, PartialEq, Eq)]
pub struct TryCatchClause {
    pub id: i64,
    pub kind: String,
    pub error_name: Option<String>,
    pub parameters: Option<ParameterList>,
    pub block: Block,
    pub src: SourceLocation,
}

/// A try statement.
#[derive(Debug, PartialEq, Eq)]
pub struct TryStatement {
    pub id: i64,
    pub expression: Expression,
    pub return_parameters: ParameterList,
    pub clauses: Vec<TryCatchClause>,
    pub src: SourceLocation,
}

/// An elementary type name used as an expression.
#[derive(Debug, PartialEq, Eq)]
pub struct ElementaryTypeNameExpression {
    pub id: i64,
    pub typename: ElementaryTypeName,
    pub src: SourceLocation,
    pub type_descriptions: TypeDescriptions,
    pub argument_types: Option<Vec<TypeDescriptions>>,
}

/// An emit statement.
#[derive(Debug, PartialEq, Eq)]
pub struct EmitStatement {
    pub id: i64,
    pub event_call: FunctionCall,
    pub src: SourceLocation,
}

/// An inheritance specifier of a contract.
#[derive(Debug, PartialEq, Eq)]
pub struct InheritanceSpecifier {
    pub id: i64,
    pub base_name: IdentifierPath,
    pub arguments: Option<Vec<Expression>>,
    pub src: SourceLocation,
}

/// An inline assembly block; its operations are kept as free-form JSON.
#[derive(Debug, PartialEq, Eq)]
pub struct InlineAssembly {
    pub id: i64,
    pub operations: Option<crate::json::JsonValue>,
    pub external_references: Option<Vec<ExternalReference>>,
    pub src: SourceLocation,
    pub documentation: Option<Documentation>,
    pub flags: Vec<String>,
}

/// An override specifier.
#[derive(Debug, PartialEq, Eq)]
pub struct OverrideSpecifier {
    pub id: i64,
    pub overrides: Vec<IdentifierPath>,
    pub src: SourceLocation,
}

/// A parameter list.
#[derive(Debug, PartialEq, Eq)]
pub struct ParameterList {
    pub id: i64,
    pub parameters: Vec<VariableDeclaration>,
    pub src: SourceLocation,
}

/// A revert statement.
#[derive(Debug, PartialEq, Eq)]
pub struct RevertStatement {
    pub id: i64,
    pub error_call: FunctionCall,
    pub src: SourceLocation,
}

/// A user-defined type name.
#[derive(Debug, PartialEq, Eq)]
pub struct UserDefinedTypeName {
    pub id: i64,
    pub path_node: Option<IdentifierPath>,
    pub referenced_declaration: Option<i64>,
    pub src: SourceLocation,
    pub type_descriptions: TypeDescriptions,
}

/// A using-for directive.
#[derive(Debug, PartialEq, Eq)]
pub struct UsingForDirective {
    pub id: i64,
    pub library_name: Option<IdentifierPath>,
    pub typename: Option<UserDefinedTypeName>,
    pub operations: Option<Vec<String>>,
    pub src: SourceLocation,
    pub global: Option<bool>,
    pub scope: Option<i64>,
}

/// A break statement.
#[derive(Debug, PartialEq, Eq)]
pub struct Break {
    pub id: i64,
    pub src: SourceLocation,
}

/// A continue statement.
#[derive(Debug, PartialEq, Eq)]
pub struct Continue {
    pub id: i64,
    pub src: SourceLocation,
}

/// An enum member.
#[derive(Debug, PartialEq, Eq)]
pub struct EnumValue {
    pub id: i64,
    pub name: String,
    pub name_location: String,
    pub src: SourceLocation,
}

/// A dotted identifier path.
#[derive(Debug, PartialEq, Eq)]
pub struct IdentifierPath {
    pub id: i64,
    pub name: String,
    pub name_locations: Option<Vec<String>>,
    pub referenced_declaration: Option<i64>,
    pub src: SourceLocation,
}

/// An import directive.
#[derive(Debug, PartialEq, Eq)]
pub struct ImportDirective {
    pub id: i64,
    pub absolute_path: String,
    pub file: String,
    pub unit_alias: Option<String>,
    pub symbol_aliases: Vec<SymbolAlias>,
    pub scope: Option<i64>,
    pub source_unit: Option<i64>,
    pub src: SourceLocation,
    pub name_location: Option<String>,
}

/// A literal expression.
#[derive(Debug, PartialEq, Eq)]
pub struct Literal {
    pub id: i64,
    pub kind: LiteralKind,
    pub value: String,
    pub hex_value: Option<String>,
    pub subdenomination: Option<String>,
    pub src: SourceLocation,
    pub type_descriptions: TypeDescriptions,
    pub is_constant: bool,
    pub is_l_value: bool,
    pub is_pure: bool,
    pub l_value_requested: bool,
    pub formatted_value: Option<String>,
}

/// A placeholder statement inside a modifier body.
#[derive(Debug, PartialEq, Eq)]
pub struct PlaceholderStatement {
    pub id: i64,
    pub src: SourceLocation,
}

/// A pragma directive.
#[derive(Debug, PartialEq, Eq)]
pub struct PragmaDirective {
    pub id: i64,
    pub literals: Vec<String>,
    pub src: SourceLocation,
}

/// Structured documentation with its tagged sections.
#[derive(Debug, PartialEq, Eq)]
pub struct StructuredDocumentation {
    pub id: i64,
    pub text: String,
    pub src: SourceLocation,
    pub url: Option<String>,
    pub author: Option<String>,
    pub title: Option<String>,
    pub notice: Option<String>,
    pub dev: Option<String>,
    pub params: Vec<StructuredDocumentationParameter>,
    pub return_values: Vec<StructuredDocumentationReturn>,
    pub custom: Vec<StructuredDocumentationCustom>,
}

/// A call with options (gas, value, salt).
#[derive(Debug, PartialEq, Eq)]
pub struct FunctionCallOptions {
    pub id: i64,
    pub expression: Expression,
    pub names: Vec<String>,
    pub options: Vec<Expression>,
    pub src: SourceLocation,
    pub type_descriptions: TypeDescriptions,
    pub name_locations: Option<Vec<String>>,
}

/// A reference from inline assembly into the surrounding code.
#[derive(Debug, PartialEq, Eq)]
pub struct ExternalReference {
    pub declaration: i64,
    pub is_offset: bool,
    pub is_slot: bool,
    pub src: SourceLocation,
    pub value_size: i64,
}

/// One imported symbol with its optional local alias.
#[derive(Debug, PartialEq, Eq)]
pub struct SymbolAlias {
    pub foreign: Identifier,
    pub local: Option<String>,
    pub name_location: String,
}

/// A documented parameter of a structured documentation record.
#[derive(Debug, PartialEq, Eq)]
pub struct StructuredDocumentationParameter {
    pub name: String,
    pub description: String,
}

/// A documented return value.
#[derive(Debug, PartialEq, Eq)]
pub struct StructuredDocumentationReturn {
    pub name: Option<String>,
    pub description: String,
}

/// A custom documentation tag.
#[derive(Debug, PartialEq, Eq)]
pub struct StructuredDocumentationCustom {
    pub tag: String,
    pub content: String,
}

/// A do-while loop.
#[derive(Debug, PartialEq, Eq)]
pub struct DoWhileStatement {
    pub id: i64,
    pub condition: Expression,
    pub body: Statement,
    pub src: SourceLocation,
}

} // verus!
