//! The schema of the node catalog, and the canonicalization of JSON trees
//! against it.
//!
//! Every concrete node record is described by a sequence of field
//! specifications: the member's key and its [`FieldKind`]. One generic,
//! purely mathematical engine — [`canon_node`], [`canon_fields`],
//! [`canon_value`] — says, for any JSON value, whether it matches a record or
//! a node family, and what its *canonical form* is: the members in schema
//! order, absent optional members made explicit `null` (or omitted, for the
//! few members the producer omits), defaulted arrays made explicit, compact
//! scalars re-rendered canonically. Decoders are proven to accept exactly the
//! values the engine accepts, and encoders to produce exactly the canonical
//! form.

use vstd::prelude::*;

use crate::ast::common::{lemma_location_round_trip, spec_decode_location, spec_encode_location, SourceLocation};
use crate::ast::error::ErrorModel;
use crate::ast::types::{lemma_elementary_round_trip, spec_decode_elementary, spec_encode_elementary, ElementaryType};
use crate::json::{jv_lookup, lemma_jv_lookup_is_member, lemma_lookup_at, lemma_lookup_absent, JsonV};
use crate::text::dec_digits;

verus! {

/// The polymorphic node families, each with its own discriminator vocabulary.
#[derive(Debug, Clone, Copy, PartialEq, Eq)]
pub enum Fam {
    /// Top-level nodes of a source unit.
    SourceUnit,
    /// Nodes directly inside a contract definition.
    Contract,
    /// Expression nodes.
    Expr,
    /// Statement nodes.
    Stmt,
    /// Type name nodes.
    TypeName,
    /// The callee position of a function call.
    FnCallExpr,
    /// Interface-description items, discriminated by `"type"`.
    AbiItem,
}

/// What a child member holds: a discriminated node of a family, a fixed
/// record, or the documentation union.
#[derive(Debug, Clone, Copy, PartialEq, Eq)]
pub enum Child {
    CFam(Fam),
    CRec(RecId),
    CDoc,
}

/// The string-valued closed enumerations of the catalog.
#[derive(Debug, Clone, Copy, PartialEq, Eq)]
pub enum EnumId {
    EContractKind,
    EFunctionKind,
    EVisibility,
    EStateMutability,
    EStorageLocation,
    EMutability,
    ELiteralKind,
    EModifierInvocationKind,
}

/// The concrete record kinds of the catalog.
#[derive(Debug, Clone, Copy, PartialEq, Eq)]
pub enum RecId {
    RTypeDescriptions,
    RCommonType,
    RIdentifier,
    RElementaryTypeName,
    REnumValue,
    RIdentifierPath,
    ROverrideSpecifier,
    RStructuredDocumentationParameter,
    RStructuredDocumentationReturn,
    RStructuredDocumentationCustom,
    RStructuredDocumentation,
    RExternalReference,
    RSymbolAlias,
    RParameterList,
    RUserDefinedTypeName,
    RArrayTypeName,
    RFunctionTypeName,
    RMapping,
    RAssignment,
    RBinaryOperation,
    RConditional,
    RElementaryTypeNameExpression,
    RFunctionCall,
    RIndexAccess,
    RLiteral,
    RMemberAccess,
    RNewExpression,
    RTupleExpression,
    RUnaryOperation,
    RFunctionCallOptions,
    RBlock,
    RUncheckedBlock,
    RBreak,
    RContinue,
    RDoWhileStatement,
    REmitStatement,
    RExpressionStatement,
    RForStatement,
    RIfStatement,
    RInlineAssembly,
    RPlaceholderStatement,
    RReturn,
    RRevertStatement,
    RTryCatchClause,
    RTryStatement,
    RVariableDeclarationStatement,
    RWhileStatement,
    RVariableDeclaration,
    RModifierInvocation,
    RFunctionDefinition,
    RModifierDefinition,
    REnumDefinition,
    RUserDefinedValueTypeDefinition,
    RErrorDefinition,
    REventDefinition,
    RStructDefinition,
    RInheritanceSpecifier,
    RUsingForDirective,
    RImportDirective,
    RPragmaDirective,
    RContractDefinition,
    RSourceUnit,
}

/// The shape of one record member.
#[derive(Debug, Clone, Copy, PartialEq, Eq)]
pub enum FieldKind {
    /// The discriminator member of a record that stores it as a field:
    /// required, and it must equal the record's own tag.
    KTag(RecId),
    /// A required integer.
    KI64,
    /// A required string.
    KStr,
    /// A required boolean.
    KBool,
    /// A boolean the producer may store as `0` or `1`.
    KBoolOrInt,
    /// An optional integer; absent decodes as `null`.
    KOptI64,
    /// An optional string; absent decodes as `null`.
    KOptStr,
    /// An optional boolean; absent decodes as `null`.
    KOptBool,
    /// An optional string that is omitted, not `null`, when unset.
    KOptStrOmit,
    /// A required array of integers.
    KArrI64,
    /// An array of integers, empty when absent.
    KDefArrI64,
    /// An optional array of integers.
    KOptArrI64,
    /// A required array of integers or nulls.
    KArrOptI64,
    /// A required array of strings.
    KArrStr,
    /// An optional array of strings.
    KOptArrStr,
    /// An array of strings, empty when absent.
    KDefArrStr,
    /// A packed source location string.
    KSrc,
    /// An elementary type spelling.
    KElem,
    /// A member of a closed string enumeration.
    KEnum(EnumId),
    /// An optional member of a closed string enumeration.
    KOptEnum(EnumId),
    /// Any JSON value, kept as it is.
    KFree,
    /// Any optional JSON value.
    KOptFree,
    /// An object mapping names to arrays of integers, empty when absent.
    KMapArrI64Def,
    /// A required child.
    KChild(Child),
    /// An optional child.
    KOptChild(Child),
    /// A required array of children.
    KArrChild(Child),
    /// An array of children, empty when absent.
    KDefArrChild(Child),
    /// An optional array of children.
    KOptArrChild(Child),
    /// A required array of children or nulls.
    KArrOptChild(Child),
    /// A required boolean stored under this key or under `"prefix"`.
    KBoolPrefixAlias,
}

/// How far an optional wrapper is from its core kind, for termination.
pub open spec fn rank(k: FieldKind) -> int {
    match k {
        FieldKind::KOptChild(_) => 1,
        FieldKind::KOptArrChild(_) => 1,
        _ => 0,
    }
}

/// The model of a decode failure: where it happened and what was wrong.
#[verifier::ext_equal]
pub enum ErrV {
    /// The decoded value is not a JSON object.
    NotAnObject,
    /// A required member is absent; the payload is its path.
    Missing(Seq<char>),
    /// A member has the wrong shape; the payload is its path.
    Invalid(Seq<char>),
    /// A compact scalar inside a member was rejected.
    Scalar(Seq<char>, ErrorModel),
    /// The discriminator value is not in the family's vocabulary.
    UnknownDiscriminator(Seq<char>),
}

/// Joins a member key with a path inside the member.
pub open spec fn join_path(k: Seq<char>, p: Seq<char>) -> Seq<char> {
    if p.len() == 0 {
        k
    } else if p[0] == '[' {
        k + p
    } else {
        k + seq!['.'] + p
    }
}

/// The path step for one array element.
pub open spec fn idx_path(i: int) -> Seq<char> {
    seq!['['] + dec_digits(i as nat) + seq![']']
}

/// Prefixes a failure's path with an enclosing member key or index.
pub open spec fn prefix_err(k: Seq<char>, e: ErrV) -> ErrV {
    match e {
        ErrV::Missing(p) => ErrV::Missing(join_path(k, p)),
        ErrV::Invalid(p) => ErrV::Invalid(join_path(k, p)),
        ErrV::Scalar(p, m) => ErrV::Scalar(join_path(k, p), m),
        ErrV::NotAnObject => ErrV::Invalid(k),
        ErrV::UnknownDiscriminator(t) => ErrV::UnknownDiscriminator(t),
    }
}

/// The spellings of a closed string enumeration.
pub open spec fn enum_ok(e: EnumId, s: Seq<char>) -> bool {
    match e {
        EnumId::EContractKind => s == "contract"@ || s == "interface"@ || s == "library"@,
        EnumId::EFunctionKind => s == "constructor"@ || s == "function"@ || s == "receive"@ || s
            == "fallback"@ || s == "freeFunction"@,
        EnumId::EVisibility => s == "external"@ || s == "public"@ || s == "internal"@ || s
            == "private"@,
        EnumId::EStateMutability => s == "pure"@ || s == "view"@ || s == "nonpayable"@ || s
            == "payable"@,
        EnumId::EStorageLocation => s == "default"@ || s == "memory"@ || s == "storage"@ || s
            == "calldata"@,
        EnumId::EMutability => s == "mutable"@ || s == "immutable"@ || s == "constant"@,
        EnumId::ELiteralKind => s == "bool"@ || s == "number"@ || s == "string"@ || s
            == "hexString"@ || s == "unicodeString"@,
        EnumId::EModifierInvocationKind => s == "modifier"@ || s == "baseConstructorSpecifier"@
            || s == "modifierInvocation"@,
    }
}

/// The discriminator key of a family: interface-description items use
/// `"type"`, every other family uses `"nodeType"`.
pub open spec fn tag_key(f: Fam) -> Seq<char> {
    match f {
        Fam::AbiItem => "type"@,
        _ => "nodeType"@,
    }
}


/// The discriminator value of a record.
pub open spec fn rec_tag(r: RecId) -> Seq<char> {
    match r {
        RecId::RTypeDescriptions => "TypeDescriptions"@,
        RecId::RCommonType => "CommonType"@,
        RecId::RIdentifier => "Identifier"@,
        RecId::RElementaryTypeName => "ElementaryTypeName"@,
        RecId::REnumValue => "EnumValue"@,
        RecId::RIdentifierPath => "IdentifierPath"@,
        RecId::ROverrideSpecifier => "OverrideSpecifier"@,
        RecId::RStructuredDocumentationParameter => "StructuredDocumentationParameter"@,
        RecId::RStructuredDocumentationReturn => "StructuredDocumentationReturn"@,
        RecId::RStructuredDocumentationCustom => "StructuredDocumentationCustom"@,
        RecId::RStructuredDocumentation => "StructuredDocumentation"@,
        RecId::RExternalReference => "ExternalReference"@,
        RecId::RSymbolAlias => "SymbolAlias"@,
        RecId::RParameterList => "ParameterList"@,
        RecId::RUserDefinedTypeName => "UserDefinedTypeName"@,
        RecId::RArrayTypeName => "ArrayTypeName"@,
        RecId::RFunctionTypeName => "FunctionTypeName"@,
        RecId::RMapping => "Mapping"@,
        RecId::RAssignment => "Assignment"@,
        RecId::RBinaryOperation => "BinaryOperation"@,
        RecId::RConditional => "Conditional"@,
        RecId::RElementaryTypeNameExpression => "ElementaryTypeNameExpression"@,
        RecId::RFunctionCall => "FunctionCall"@,
        RecId::RIndexAccess => "IndexAccess"@,
        RecId::RLiteral => "Literal"@,
        RecId::RMemberAccess => "MemberAccess"@,
        RecId::RNewExpression => "NewExpression"@,
        RecId::RTupleExpression => "TupleExpression"@,
        RecId::RUnaryOperation => "UnaryOperation"@,
        RecId::RFunctionCallOptions => "FunctionCallOptions"@,
        RecId::RBlock => "Block"@,
        RecId::RUncheckedBlock => "UncheckedBlock"@,
        RecId::RBreak => "Break"@,
        RecId::RContinue => "Continue"@,
        RecId::RDoWhileStatement => "DoWhileStatement"@,
        RecId::REmitStatement => "EmitStatement"@,
        RecId::RExpressionStatement => "ExpressionStatement"@,
        RecId::RForStatement => "ForStatement"@,
        RecId::RIfStatement => "IfStatement"@,
        RecId::RInlineAssembly => "InlineAssembly"@,
        RecId::RPlaceholderStatement => "PlaceholderStatement"@,
        RecId::RReturn => "Return"@,
        RecId::RRevertStatement => "RevertStatement"@,
        RecId::RTryCatchClause => "TryCatchClause"@,
        RecId::RTryStatement => "TryStatement"@,
        RecId::RVariableDeclarationStatement => "VariableDeclarationStatement"@,
        RecId::RWhileStatement => "WhileStatement"@,
        RecId::RVariableDeclaration => "VariableDeclaration"@,
        RecId::RModifierInvocation => "ModifierInvocation"@,
        RecId::RFunctionDefinition => "FunctionDefinition"@,
        RecId::RModifierDefinition => "ModifierDefinition"@,
        RecId::REnumDefinition => "EnumDefinition"@,
        RecId::RUserDefinedValueTypeDefinition => "UserDefinedValueTypeDefinition"@,
        RecId::RErrorDefinition => "ErrorDefinition"@,
        RecId::REventDefinition => "EventDefinition"@,
        RecId::RStructDefinition => "StructDefinition"@,
        RecId::RInheritanceSpecifier => "InheritanceSpecifier"@,
        RecId::RUsingForDirective => "UsingForDirective"@,
        RecId::RImportDirective => "ImportDirective"@,
        RecId::RPragmaDirective => "PragmaDirective"@,
        RecId::RContractDefinition => "ContractDefinition"@,
        RecId::RSourceUnit => "SourceUnit"@,
    }
}

/// Whether the record stores its discriminator as an ordinary field of its
/// own (so dispatch must not add a second copy).
pub open spec fn rec_tagged_field(r: RecId) -> bool {
    match r {
        RecId::RIdentifier => true,
        RecId::RElementaryTypeName => true,
        _ => false,
    }
}

/// The record a family's discriminator value selects, if any.
pub open spec fn fam_rec(f: Fam, tag: Seq<char>) -> Option<RecId> {
    match f {
        Fam::Expr => {
            if tag == "Assignment"@ {
                Some(RecId::RAssignment)
            } else if tag == "BinaryOperation"@ {
                Some(RecId::RBinaryOperation)
            } else if tag == "Conditional"@ {
                Some(RecId::RConditional)
            } else if tag == "ElementaryTypeNameExpression"@ {
                Some(RecId::RElementaryTypeNameExpression)
            } else if tag == "FunctionCall"@ {
                Some(RecId::RFunctionCall)
            } else if tag == "Identifier"@ {
                Some(RecId::RIdentifier)
            } else if tag == "IndexAccess"@ {
                Some(RecId::RIndexAccess)
            } else if tag == "Literal"@ {
                Some(RecId::RLiteral)
            } else if tag == "MemberAccess"@ {
                Some(RecId::RMemberAccess)
            } else if tag == "NewExpression"@ {
                Some(RecId::RNewExpression)
            } else if tag == "TupleExpression"@ {
                Some(RecId::RTupleExpression)
            } else if tag == "UnaryOperation"@ {
                Some(RecId::RUnaryOperation)
            } else if tag == "VariableDeclarationStatement"@ {
                Some(RecId::RVariableDeclarationStatement)
            } else if tag == "ExpressionStatement"@ {
                Some(RecId::RExpressionStatement)
            } else {
                None
            }
        },
        Fam::Stmt => {
            if tag == "Block"@ {
                Some(RecId::RBlock)
            } else if tag == "Break"@ {
                Some(RecId::RBreak)
            } else if tag == "Continue"@ {
                Some(RecId::RContinue)
            } else if tag == "DoWhileStatement"@ {
                Some(RecId::RDoWhileStatement)
            } else if tag == "EmitStatement"@ {
                Some(RecId::REmitStatement)
            } else if tag == "ExpressionStatement"@ {
                Some(RecId::RExpressionStatement)
            } else if tag == "ForStatement"@ {
                Some(RecId::RForStatement)
            } else if tag == "IfStatement"@ {
                Some(RecId::RIfStatement)
            } else if tag == "InlineAssembly"@ {
                Some(RecId::RInlineAssembly)
            } else if tag == "PlaceholderStatement"@ {
                Some(RecId::RPlaceholderStatement)
            } else if tag == "Return"@ {
                Some(RecId::RReturn)
            } else if tag == "RevertStatement"@ {
                Some(RecId::RRevertStatement)
            } else if tag == "TryStatement"@ {
                Some(RecId::RTryStatement)
            } else if tag == "UncheckedBlock"@ {
                Some(RecId::RUncheckedBlock)
            } else if tag == "VariableDeclarationStatement"@ {
                Some(RecId::RVariableDeclarationStatement)
            } else if tag == "WhileStatement"@ {
                Some(RecId::RWhileStatement)
            } else {
                None
            }
        },
        Fam::TypeName => {
            if tag == "ArrayTypeName"@ {
                Some(RecId::RArrayTypeName)
            } else if tag == "ElementaryTypeName"@ {
                Some(RecId::RElementaryTypeName)
            } else if tag == "FunctionTypeName"@ {
                Some(RecId::RFunctionTypeName)
            } else if tag == "Mapping"@ {
                Some(RecId::RMapping)
            } else if tag == "UserDefinedTypeName"@ {
                Some(RecId::RUserDefinedTypeName)
            } else {
                None
            }
        },
        Fam::FnCallExpr => {
            if tag == "ElementaryTypeNameExpression"@ {
                Some(RecId::RElementaryTypeNameExpression)
            } else if tag == "FunctionCall"@ {
                Some(RecId::RFunctionCall)
            } else if tag == "FunctionCallOptions"@ {
                Some(RecId::RFunctionCallOptions)
            } else if tag == "Identifier"@ {
                Some(RecId::RIdentifier)
            } else if tag == "MemberAccess"@ {
                Some(RecId::RMemberAccess)
            } else if tag == "NewExpression"@ {
                Some(RecId::RNewExpression)
            } else {
                None
            }
        },
        Fam::SourceUnit => {
            if tag == "ContractDefinition"@ {
                Some(RecId::RContractDefinition)
            } else if tag == "EnumDefinition"@ {
                Some(RecId::REnumDefinition)
            } else if tag == "ErrorDefinition"@ {
                Some(RecId::RErrorDefinition)
            } else if tag == "EventDefinition"@ {
                Some(RecId::REventDefinition)
            } else if tag == "FunctionDefinition"@ {
                Some(RecId::RFunctionDefinition)
            } else if tag == "ImportDirective"@ {
                Some(RecId::RImportDirective)
            } else if tag == "PragmaDirective"@ {
                Some(RecId::RPragmaDirective)
            } else if tag == "StructDefinition"@ {
                Some(RecId::RStructDefinition)
            } else if tag == "UserDefinedValueTypeDefinition"@ {
                Some(RecId::RUserDefinedValueTypeDefinition)
            } else if tag == "UsingForDirective"@ {
                Some(RecId::RUsingForDirective)
            } else if tag == "VariableDeclaration"@ {
                Some(RecId::RVariableDeclaration)
            } else {
                None
            }
        },
        Fam::Contract => {
            if tag == "EnumDefinition"@ {
                Some(RecId::REnumDefinition)
            } else if tag == "ErrorDefinition"@ {
                Some(RecId::RErrorDefinition)
            } else if tag == "EventDefinition"@ {
                Some(RecId::REventDefinition)
            } else if tag == "FunctionDefinition"@ {
                Some(RecId::RFunctionDefinition)
            } else if tag == "ModifierDefinition"@ {
                Some(RecId::RModifierDefinition)
            } else if tag == "StructDefinition"@ {
                Some(RecId::RStructDefinition)
            } else if tag == "UsingForDirective"@ {
                Some(RecId::RUsingForDirective)
            } else if tag == "VariableDeclaration"@ {
                Some(RecId::RVariableDeclaration)
            } else {
                None
            }
        },
        Fam::AbiItem => None,
    }
}

/// The record that a discriminator value selects for isolation decoding:
/// the union of every family's vocabulary, the document root, and the
/// structured documentation record.
pub open spec fn known_rec(tag: Seq<char>) -> Option<RecId> {
    if tag == "ArrayTypeName"@ {
        Some(RecId::RArrayTypeName)
    } else if tag == "Assignment"@ {
        Some(RecId::RAssignment)
    } else if tag == "BinaryOperation"@ {
        Some(RecId::RBinaryOperation)
    } else if tag == "Block"@ {
        Some(RecId::RBlock)
    } else if tag == "Break"@ {
        Some(RecId::RBreak)
    } else if tag == "Conditional"@ {
        Some(RecId::RConditional)
    } else if tag == "Continue"@ {
        Some(RecId::RContinue)
    } else if tag == "ContractDefinition"@ {
        Some(RecId::RContractDefinition)
    } else if tag == "DoWhileStatement"@ {
        Some(RecId::RDoWhileStatement)
    } else if tag == "ElementaryTypeName"@ {
        Some(RecId::RElementaryTypeName)
    } else if tag == "ElementaryTypeNameExpression"@ {
        Some(RecId::RElementaryTypeNameExpression)
    } else if tag == "EmitStatement"@ {
        Some(RecId::REmitStatement)
    } else if tag == "EnumDefinition"@ {
        Some(RecId::REnumDefinition)
    } else if tag == "ErrorDefinition"@ {
        Some(RecId::RErrorDefinition)
    } else if tag == "EventDefinition"@ {
        Some(RecId::REventDefinition)
    } else if tag == "ExpressionStatement"@ {
        Some(RecId::RExpressionStatement)
    } else if tag == "ForStatement"@ {
        Some(RecId::RForStatement)
    } else if tag == "FunctionCall"@ {
        Some(RecId::RFunctionCall)
    } else if tag == "FunctionCallOptions"@ {
        Some(RecId::RFunctionCallOptions)
    } else if tag == "FunctionDefinition"@ {
        Some(RecId::RFunctionDefinition)
    } else if tag == "FunctionTypeName"@ {
        Some(RecId::RFunctionTypeName)
    } else if tag == "Identifier"@ {
        Some(RecId::RIdentifier)
    } else if tag == "IfStatement"@ {
        Some(RecId::RIfStatement)
    } else if tag == "ImportDirective"@ {
        Some(RecId::RImportDirective)
    } else if tag == "IndexAccess"@ {
        Some(RecId::RIndexAccess)
    } else if tag == "InlineAssembly"@ {
        Some(RecId::RInlineAssembly)
    } else if tag == "Literal"@ {
        Some(RecId::RLiteral)
    } else if tag == "Mapping"@ {
        Some(RecId::RMapping)
    } else if tag == "MemberAccess"@ {
        Some(RecId::RMemberAccess)
    } else if tag == "ModifierDefinition"@ {
        Some(RecId::RModifierDefinition)
    } else if tag == "NewExpression"@ {
        Some(RecId::RNewExpression)
    } else if tag == "PlaceholderStatement"@ {
        Some(RecId::RPlaceholderStatement)
    } else if tag == "PragmaDirective"@ {
        Some(RecId::RPragmaDirective)
    } else if tag == "Return"@ {
        Some(RecId::RReturn)
    } else if tag == "RevertStatement"@ {
        Some(RecId::RRevertStatement)
    } else if tag == "SourceUnit"@ {
        Some(RecId::RSourceUnit)
    } else if tag == "StructDefinition"@ {
        Some(RecId::RStructDefinition)
    } else if tag == "StructuredDocumentation"@ {
        Some(RecId::RStructuredDocumentation)
    } else if tag == "TryStatement"@ {
        Some(RecId::RTryStatement)
    } else if tag == "TupleExpression"@ {
        Some(RecId::RTupleExpression)
    } else if tag == "UnaryOperation"@ {
        Some(RecId::RUnaryOperation)
    } else if tag == "UncheckedBlock"@ {
        Some(RecId::RUncheckedBlock)
    } else if tag == "UserDefinedTypeName"@ {
        Some(RecId::RUserDefinedTypeName)
    } else if tag == "UserDefinedValueTypeDefinition"@ {
        Some(RecId::RUserDefinedValueTypeDefinition)
    } else if tag == "UsingForDirective"@ {
        Some(RecId::RUsingForDirective)
    } else if tag == "VariableDeclaration"@ {
        Some(RecId::RVariableDeclaration)
    } else if tag == "VariableDeclarationStatement"@ {
        Some(RecId::RVariableDeclarationStatement)
    } else if tag == "WhileStatement"@ {
        Some(RecId::RWhileStatement)
    } else {
        None
    }
}

/// The members of a record, in canonical order.
pub open spec fn schema(r: RecId) -> Seq<(Seq<char>, FieldKind)> {
    match r {
        RecId::RTypeDescriptions => schema_type_descriptions(),
        RecId::RCommonType => schema_common_type(),
        RecId::RIdentifier => schema_identifier(),
        RecId::RElementaryTypeName => schema_elementary_type_name(),
        RecId::REnumValue => schema_enum_value(),
        RecId::RIdentifierPath => schema_identifier_path(),
        RecId::ROverrideSpecifier => schema_override_specifier(),
        RecId::RStructuredDocumentationParameter => schema_documentation_parameter(),
        RecId::RStructuredDocumentationReturn => schema_documentation_return(),
        RecId::RStructuredDocumentationCustom => schema_documentation_custom(),
        RecId::RStructuredDocumentation => schema_structured_documentation(),
        RecId::RExternalReference => schema_external_reference(),
        RecId::RSymbolAlias => schema_symbol_alias(),
        RecId::RParameterList => schema_parameter_list(),
        RecId::RUserDefinedTypeName => schema_user_defined_type_name(),
        RecId::RArrayTypeName => schema_array_type_name(),
        RecId::RFunctionTypeName => schema_function_type_name(),
        RecId::RMapping => schema_mapping(),
        RecId::RAssignment => schema_assignment(),
        RecId::RBinaryOperation => schema_binary_operation(),
        RecId::RConditional => schema_conditional(),
        RecId::RElementaryTypeNameExpression => schema_elementary_type_name_expression(),
        RecId::RFunctionCall => schema_function_call(),
        RecId::RIndexAccess => schema_index_access(),
        RecId::RLiteral => schema_literal(),
        RecId::RMemberAccess => schema_member_access(),
        RecId::RNewExpression => schema_new_expression(),
        RecId::RTupleExpression => schema_tuple_expression(),
        RecId::RUnaryOperation => schema_unary_operation(),
        RecId::RFunctionCallOptions => schema_function_call_options(),
        RecId::RBlock => schema_block(),
        RecId::RUncheckedBlock => schema_unchecked_block(),
        RecId::RBreak => schema_break_statement(),
        RecId::RContinue => schema_continue_statement(),
        RecId::RDoWhileStatement => schema_do_while_statement(),
        RecId::REmitStatement => schema_emit_statement(),
        RecId::RExpressionStatement => schema_expression_statement(),
        RecId::RForStatement => schema_for_statement(),
        RecId::RIfStatement => schema_if_statement(),
        RecId::RInlineAssembly => schema_inline_assembly(),
        RecId::RPlaceholderStatement => schema_placeholder_statement(),
        RecId::RReturn => schema_return_statement(),
        RecId::RRevertStatement => schema_revert_statement(),
        RecId::RTryCatchClause => schema_try_catch_clause(),
        RecId::RTryStatement => schema_try_statement(),
        RecId::RVariableDeclarationStatement => schema_variable_declaration_statement(),
        RecId::RWhileStatement => schema_while_statement(),
        RecId::RVariableDeclaration => schema_variable_declaration(),
        RecId::RModifierInvocation => schema_modifier_invocation(),
        RecId::RFunctionDefinition => schema_function_definition(),
        RecId::RModifierDefinition => schema_modifier_definition(),
        RecId::REnumDefinition => schema_enum_definition(),
        RecId::RUserDefinedValueTypeDefinition => schema_user_defined_value_type_definition(),
        RecId::RErrorDefinition => schema_error_definition(),
        RecId::REventDefinition => schema_event_definition(),
        RecId::RStructDefinition => schema_struct_definition(),
        RecId::RInheritanceSpecifier => schema_inheritance_specifier(),
        RecId::RUsingForDirective => schema_using_for_directive(),
        RecId::RImportDirective => schema_import_directive(),
        RecId::RPragmaDirective => schema_pragma_directive(),
        RecId::RContractDefinition => schema_contract_definition(),
        RecId::RSourceUnit => schema_source_unit(),
    }
}

/// The members of a typeDescriptions record.
pub open spec fn schema_type_descriptions() -> Seq<(Seq<char>, FieldKind)> {
    seq![
        ("typeIdentifier"@, FieldKind::KOptStrOmit),
        ("typeString"@, FieldKind::KOptStrOmit),
    ]
}

/// The members of a commonType record.
pub open spec fn schema_common_type() -> Seq<(Seq<char>, FieldKind)> {
    seq![
        ("typeIdentifier"@, FieldKind::KStr),
        ("typeString"@, FieldKind::KStr),
    ]
}

/// The members of a identifier record.
pub open spec fn schema_identifier() -> Seq<(Seq<char>, FieldKind)> {
    seq![
        ("nodeType"@, FieldKind::KTag(RecId::RIdentifier)),
        ("id"@, FieldKind::KI64),
        ("name"@, FieldKind::KStr),
        ("overloadedDeclarations"@, FieldKind::KDefArrI64),
        ("referencedDeclaration"@, FieldKind::KOptI64),
        ("src"@, FieldKind::KSrc),
        ("typeDescriptions"@, FieldKind::KChild(Child::CRec(RecId::RTypeDescriptions))),
        ("argumentTypes"@, FieldKind::KOptArrChild(Child::CRec(RecId::RTypeDescriptions))),
    ]
}

/// The members of a elementaryTypeName record.
pub open spec fn schema_elementary_type_name() -> Seq<(Seq<char>, FieldKind)> {
    seq![
        ("nodeType"@, FieldKind::KTag(RecId::RElementaryTypeName)),
        ("id"@, FieldKind::KI64),
        ("name"@, FieldKind::KElem),
        ("src"@, FieldKind::KSrc),
        ("stateMutability"@, FieldKind::KOptStrOmit),
        ("typeDescriptions"@, FieldKind::KChild(Child::CRec(RecId::RTypeDescriptions))),
    ]
}

/// The members of a enumValue record.
pub open spec fn schema_enum_value() -> Seq<(Seq<char>, FieldKind)> {
    seq![
        ("id"@, FieldKind::KI64),
        ("name"@, FieldKind::KStr),
        ("nameLocation"@, FieldKind::KStr),
        ("src"@, FieldKind::KSrc),
    ]
}

/// The members of a identifierPath record.
pub open spec fn schema_identifier_path() -> Seq<(Seq<char>, FieldKind)> {
    seq![
        ("id"@, FieldKind::KI64),
        ("name"@, FieldKind::KStr),
        ("nameLocations"@, FieldKind::KOptArrStr),
        ("referencedDeclaration"@, FieldKind::KOptI64),
        ("src"@, FieldKind::KSrc),
    ]
}

/// The members of a overrideSpecifier record.
pub open spec fn schema_override_specifier() -> Seq<(Seq<char>, FieldKind)> {
    seq![
        ("id"@, FieldKind::KI64),
        ("overrides"@, FieldKind::KDefArrChild(Child::CRec(RecId::RIdentifierPath))),
        ("src"@, FieldKind::KSrc),
    ]
}

/// The members of a structuredDocumentationParameter record.
pub open spec fn schema_documentation_parameter() -> Seq<(Seq<char>, FieldKind)> {
    seq![
        ("name"@, FieldKind::KStr),
        ("description"@, FieldKind::KStr),
    ]
}

/// The members of a structuredDocumentationReturn record.
pub open spec fn schema_documentation_return() -> Seq<(Seq<char>, FieldKind)> {
    seq![
        ("name"@, FieldKind::KOptStr),
        ("description"@, FieldKind::KStr),
    ]
}

/// The members of a structuredDocumentationCustom record.
pub open spec fn schema_documentation_custom() -> Seq<(Seq<char>, FieldKind)> {
    seq![
        ("tag"@, FieldKind::KStr),
        ("content"@, FieldKind::KStr),
    ]
}

/// The members of a structuredDocumentation record.
pub open spec fn schema_structured_documentation() -> Seq<(Seq<char>, FieldKind)> {
    seq![
        ("id"@, FieldKind::KI64),
        ("text"@, FieldKind::KStr),
        ("src"@, FieldKind::KSrc),
        ("url"@, FieldKind::KOptStr),
        ("author"@, FieldKind::KOptStr),
        ("title"@, FieldKind::KOptStr),
        ("notice"@, FieldKind::KOptStr),
        ("dev"@, FieldKind::KOptStr),
        ("params"@, FieldKind::KDefArrChild(Child::CRec(RecId::RStructuredDocumentationParameter))),
        ("returns"@, FieldKind::KDefArrChild(Child::CRec(RecId::RStructuredDocumentationReturn))),
        ("custom"@, FieldKind::KDefArrChild(Child::CRec(RecId::RStructuredDocumentationCustom))),
    ]
}

/// The members of a externalReference record.
pub open spec fn schema_external_reference() -> Seq<(Seq<char>, FieldKind)> {
    seq![
        ("declaration"@, FieldKind::KI64),
        ("isOffset"@, FieldKind::KBool),
        ("isSlot"@, FieldKind::KBool),
        ("src"@, FieldKind::KSrc),
        ("valueSize"@, FieldKind::KI64),
    ]
}

/// The members of a symbolAlias record.
pub open spec fn schema_symbol_alias() -> Seq<(Seq<char>, FieldKind)> {
    seq![
        ("foreign"@, FieldKind::KChild(Child::CRec(RecId::RIdentifier))),
        ("local"@, FieldKind::KOptStr),
        ("nameLocation"@, FieldKind::KStr),
    ]
}

/// The members of a parameterList record.
pub open spec fn schema_parameter_list() -> Seq<(Seq<char>, FieldKind)> {
    seq![
        ("id"@, FieldKind::KI64),
        ("parameters"@, FieldKind::KArrChild(Child::CRec(RecId::RVariableDeclaration))),
        ("src"@, FieldKind::KSrc),
    ]
}

/// The members of a userDefinedTypeName record.
pub open spec fn schema_user_defined_type_name() -> Seq<(Seq<char>, FieldKind)> {
    seq![
        ("id"@, FieldKind::KI64),
        ("pathNode"@, FieldKind::KOptChild(Child::CRec(RecId::RIdentifierPath))),
        ("referenced_declaration"@, FieldKind::KOptI64),
        ("src"@, FieldKind::KSrc),
        ("typeDescriptions"@, FieldKind::KChild(Child::CRec(RecId::RTypeDescriptions))),
    ]
}

/// The members of a arrayTypeName record.
pub open spec fn schema_array_type_name() -> Seq<(Seq<char>, FieldKind)> {
    seq![
        ("id"@, FieldKind::KI64),
        ("baseType"@, FieldKind::KChild(Child::CFam(Fam::TypeName))),
        ("length"@, FieldKind::KOptChild(Child::CFam(Fam::Expr))),
        ("src"@, FieldKind::KSrc),
    ]
}

/// The members of a functionTypeName record.
pub open spec fn schema_function_type_name() -> Seq<(Seq<char>, FieldKind)> {
    seq![
        ("id"@, FieldKind::KI64),
        ("parameterTypes"@, FieldKind::KArrChild(Child::CFam(Fam::TypeName))),
        ("returnParameterTypes"@, FieldKind::KArrChild(Child::CFam(Fam::TypeName))),
        ("visibility"@, FieldKind::KStr),
        ("stateMutability"@, FieldKind::KStr),
        ("src"@, FieldKind::KSrc),
    ]
}

/// The members of a mapping record.
pub open spec fn schema_mapping() -> Seq<(Seq<char>, FieldKind)> {
    seq![
        ("id"@, FieldKind::KI64),
        ("keyType"@, FieldKind::KChild(Child::CFam(Fam::TypeName))),
        ("valueType"@, FieldKind::KChild(Child::CFam(Fam::TypeName))),
        ("src"@, FieldKind::KSrc),
    ]
}

/// The members of a assignment record.
pub open spec fn schema_assignment() -> Seq<(Seq<char>, FieldKind)> {
    seq![
        ("id"@, FieldKind::KI64),
        ("leftHandSide"@, FieldKind::KChild(Child::CFam(Fam::Expr))),
        ("rightHandSide"@, FieldKind::KChild(Child::CFam(Fam::Expr))),
        ("operator"@, FieldKind::KStr),
        ("src"@, FieldKind::KSrc),
        ("typeDescriptions"@, FieldKind::KChild(Child::CRec(RecId::RTypeDescriptions))),
    ]
}

/// The members of a binaryOperation record.
pub open spec fn schema_binary_operation() -> Seq<(Seq<char>, FieldKind)> {
    seq![
        ("id"@, FieldKind::KI64),
        ("leftExpression"@, FieldKind::KChild(Child::CFam(Fam::Expr))),
        ("rightExpression"@, FieldKind::KChild(Child::CFam(Fam::Expr))),
        ("operator"@, FieldKind::KStr),
        ("commonType"@, FieldKind::KChild(Child::CRec(RecId::RCommonType))),
        ("src"@, FieldKind::KSrc),
        ("isConstant"@, FieldKind::KBool),
        ("isLValue"@, FieldKind::KBool),
        ("isPure"@, FieldKind::KBool),
        ("lValueRequested"@, FieldKind::KBool),
        ("typeDescriptions"@, FieldKind::KChild(Child::CRec(RecId::RTypeDescriptions))),
    ]
}

/// The members of a conditional record.
pub open spec fn schema_conditional() -> Seq<(Seq<char>, FieldKind)> {
    seq![
        ("id"@, FieldKind::KI64),
        ("condition"@, FieldKind::KChild(Child::CFam(Fam::Expr))),
        ("trueExpression"@, FieldKind::KChild(Child::CFam(Fam::Expr))),
        ("falseExpression"@, FieldKind::KChild(Child::CFam(Fam::Expr))),
        ("isConstant"@, FieldKind::KBool),
        ("isLValue"@, FieldKind::KBool),
        ("isPure"@, FieldKind::KBool),
        ("lValueRequested"@, FieldKind::KBool),
        ("src"@, FieldKind::KSrc),
        ("typeDescriptions"@, FieldKind::KChild(Child::CRec(RecId::RTypeDescriptions))),
    ]
}

/// The members of a elementaryTypeNameExpression record.
pub open spec fn schema_elementary_type_name_expression() -> Seq<(Seq<char>, FieldKind)> {
    seq![
        ("id"@, FieldKind::KI64),
        ("typeName"@, FieldKind::KChild(Child::CRec(RecId::RElementaryTypeName))),
        ("src"@, FieldKind::KSrc),
        ("typeDescriptions"@, FieldKind::KChild(Child::CRec(RecId::RTypeDescriptions))),
        ("argumentTypes"@, FieldKind::KOptArrChild(Child::CRec(RecId::RTypeDescriptions))),
    ]
}

/// The members of a functionCall record.
pub open spec fn schema_function_call() -> Seq<(Seq<char>, FieldKind)> {
    seq![
        ("id"@, FieldKind::KI64),
        ("expression"@, FieldKind::KChild(Child::CFam(Fam::FnCallExpr))),
        ("arguments"@, FieldKind::KArrChild(Child::CFam(Fam::Expr))),
        ("names"@, FieldKind::KArrStr),
        ("kind"@, FieldKind::KStr),
        ("src"@, FieldKind::KSrc),
        ("tryCall"@, FieldKind::KBool),
        ("nameLocations"@, FieldKind::KOptArrStr),
        ("isConstant"@, FieldKind::KBool),
        ("isLValue"@, FieldKind::KBool),
        ("isPure"@, FieldKind::KBool),
        ("lValueRequested"@, FieldKind::KBool),
        ("typeDescriptions"@, FieldKind::KChild(Child::CRec(RecId::RTypeDescriptions))),
        ("argumentTypes"@, FieldKind::KOptArrChild(Child::CRec(RecId::RTypeDescriptions))),
    ]
}

/// The members of a indexAccess record.
pub open spec fn schema_index_access() -> Seq<(Seq<char>, FieldKind)> {
    seq![
        ("id"@, FieldKind::KI64),
        ("baseExpression"@, FieldKind::KChild(Child::CFam(Fam::Expr))),
        ("indexExpression"@, FieldKind::KOptChild(Child::CFam(Fam::Expr))),
        ("src"@, FieldKind::KSrc),
        ("typeDescriptions"@, FieldKind::KChild(Child::CRec(RecId::RTypeDescriptions))),
    ]
}

/// The members of a literal record.
pub open spec fn schema_literal() -> Seq<(Seq<char>, FieldKind)> {
    seq![
        ("id"@, FieldKind::KI64),
        ("kind"@, FieldKind::KEnum(EnumId::ELiteralKind)),
        ("value"@, FieldKind::KStr),
        ("hexValue"@, FieldKind::KOptStr),
        ("subdenomination"@, FieldKind::KOptStr),
        ("src"@, FieldKind::KSrc),
        ("typeDescriptions"@, FieldKind::KChild(Child::CRec(RecId::RTypeDescriptions))),
        ("isConstant"@, FieldKind::KBool),
        ("isLValue"@, FieldKind::KBool),
        ("isPure"@, FieldKind::KBool),
        ("lValueRequested"@, FieldKind::KBool),
        ("formattedValue"@, FieldKind::KOptStr),
    ]
}

/// The members of a memberAccess record.
pub open spec fn schema_member_access() -> Seq<(Seq<char>, FieldKind)> {
    seq![
        ("id"@, FieldKind::KI64),
        ("expression"@, FieldKind::KChild(Child::CFam(Fam::Expr))),
        ("memberName"@, FieldKind::KStr),
        ("memberLocation"@, FieldKind::KOptStr),
        ("src"@, FieldKind::KSrc),
        ("referencedDeclaration"@, FieldKind::KOptI64),
        ("typeDescriptions"@, FieldKind::KChild(Child::CRec(RecId::RTypeDescriptions))),
        ("argumentTypes"@, FieldKind::KOptArrChild(Child::CRec(RecId::RTypeDescriptions))),
        ("isConstant"@, FieldKind::KBool),
        ("isLValue"@, FieldKind::KBool),
        ("isPure"@, FieldKind::KBool),
        ("lValueRequested"@, FieldKind::KBool),
    ]
}

/// The members of a newExpression record.
pub open spec fn schema_new_expression() -> Seq<(Seq<char>, FieldKind)> {
    seq![
        ("id"@, FieldKind::KI64),
        ("typeName"@, FieldKind::KChild(Child::CFam(Fam::TypeName))),
        ("arguments"@, FieldKind::KOptArrChild(Child::CFam(Fam::Expr))),
        ("src"@, FieldKind::KSrc),
        ("typeDescriptions"@, FieldKind::KChild(Child::CRec(RecId::RTypeDescriptions))),
        ("argumentTypes"@, FieldKind::KOptArrChild(Child::CRec(RecId::RTypeDescriptions))),
        ("isConstant"@, FieldKind::KBool),
        ("isLValue"@, FieldKind::KBool),
        ("isPure"@, FieldKind::KBool),
        ("lValueRequested"@, FieldKind::KBool),
    ]
}

/// The members of a tupleExpression record.
pub open spec fn schema_tuple_expression() -> Seq<(Seq<char>, FieldKind)> {
    seq![
        ("id"@, FieldKind::KI64),
        ("components"@, FieldKind::KArrOptChild(Child::CFam(Fam::Expr))),
        ("src"@, FieldKind::KSrc),
        ("typeDescriptions"@, FieldKind::KChild(Child::CRec(RecId::RTypeDescriptions))),
    ]
}

/// The members of a unaryOperation record.
pub open spec fn schema_unary_operation() -> Seq<(Seq<char>, FieldKind)> {
    seq![
        ("id"@, FieldKind::KI64),
        ("subExpression"@, FieldKind::KChild(Child::CFam(Fam::Expr))),
        ("operator"@, FieldKind::KStr),
        ("isPrefix"@, FieldKind::KBoolPrefixAlias),
        ("src"@, FieldKind::KSrc),
        ("typeDescriptions"@, FieldKind::KChild(Child::CRec(RecId::RTypeDescriptions))),
        ("isConstant"@, FieldKind::KBool),
        ("isLValue"@, FieldKind::KBool),
        ("isPure"@, FieldKind::KBool),
        ("lValueRequested"@, FieldKind::KBool),
    ]
}

/// The members of a functionCallOptions record.
pub open spec fn schema_function_call_options() -> Seq<(Seq<char>, FieldKind)> {
    seq![
        ("id"@, FieldKind::KI64),
        ("expression"@, FieldKind::KChild(Child::CFam(Fam::Expr))),
        ("names"@, FieldKind::KArrStr),
        ("options"@, FieldKind::KArrChild(Child::CFam(Fam::Expr))),
        ("src"@, FieldKind::KSrc),
        ("typeDescriptions"@, FieldKind::KChild(Child::CRec(RecId::RTypeDescriptions))),
        ("nameLocations"@, FieldKind::KOptArrStr),
    ]
}

/// The members of a block record.
pub open spec fn schema_block() -> Seq<(Seq<char>, FieldKind)> {
    seq![
        ("id"@, FieldKind::KI64),
        ("statements"@, FieldKind::KArrChild(Child::CFam(Fam::Stmt))),
        ("src"@, FieldKind::KSrc),
    ]
}

/// The members of a uncheckedBlock record.
pub open spec fn schema_unchecked_block() -> Seq<(Seq<char>, FieldKind)> {
    seq![
        ("id"@, FieldKind::KI64),
        ("statements"@, FieldKind::KArrChild(Child::CFam(Fam::Stmt))),
        ("src"@, FieldKind::KSrc),
    ]
}

/// The members of a break record.
pub open spec fn schema_break_statement() -> Seq<(Seq<char>, FieldKind)> {
    seq![
        ("id"@, FieldKind::KI64),
        ("src"@, FieldKind::KSrc),
    ]
}

/// The members of a continue record.
pub open spec fn schema_continue_statement() -> Seq<(Seq<char>, FieldKind)> {
    seq![
        ("id"@, FieldKind::KI64),
        ("src"@, FieldKind::KSrc),
    ]
}

/// The members of a doWhileStatement record.
pub open spec fn schema_do_while_statement() -> Seq<(Seq<char>, FieldKind)> {
    seq![
        ("id"@, FieldKind::KI64),
        ("condition"@, FieldKind::KChild(Child::CFam(Fam::Expr))),
        ("body"@, FieldKind::KChild(Child::CFam(Fam::Stmt))),
        ("src"@, FieldKind::KSrc),
    ]
}

/// The members of a emitStatement record.
pub open spec fn schema_emit_statement() -> Seq<(Seq<char>, FieldKind)> {
    seq![
        ("id"@, FieldKind::KI64),
        ("eventCall"@, FieldKind::KChild(Child::CRec(RecId::RFunctionCall))),
        ("src"@, FieldKind::KSrc),
    ]
}

/// The members of a expressionStatement record.
pub open spec fn schema_expression_statement() -> Seq<(Seq<char>, FieldKind)> {
    seq![
        ("id"@, FieldKind::KI64),
        ("expression"@, FieldKind::KChild(Child::CFam(Fam::Expr))),
        ("src"@, FieldKind::KSrc),
    ]
}

/// The members of a forStatement record.
pub open spec fn schema_for_statement() -> Seq<(Seq<char>, FieldKind)> {
    seq![
        ("id"@, FieldKind::KI64),
        ("initializationExpression"@, FieldKind::KOptChild(Child::CFam(Fam::Expr))),
        ("condition"@, FieldKind::KOptChild(Child::CFam(Fam::Expr))),
        ("loopExpression"@, FieldKind::KOptChild(Child::CFam(Fam::Expr))),
        ("body"@, FieldKind::KChild(Child::CFam(Fam::Stmt))),
        ("src"@, FieldKind::KSrc),
    ]
}

/// The members of a ifStatement record.
pub open spec fn schema_if_statement() -> Seq<(Seq<char>, FieldKind)> {
    seq![
        ("id"@, FieldKind::KI64),
        ("condition"@, FieldKind::KChild(Child::CFam(Fam::Expr))),
        ("trueBody"@, FieldKind::KChild(Child::CFam(Fam::Stmt))),
        ("falseBody"@, FieldKind::KOptChild(Child::CFam(Fam::Stmt))),
        ("src"@, FieldKind::KSrc),
    ]
}

/// The members of a inlineAssembly record.
pub open spec fn schema_inline_assembly() -> Seq<(Seq<char>, FieldKind)> {
    seq![
        ("id"@, FieldKind::KI64),
        ("operations"@, FieldKind::KOptFree),
        ("externalReferences"@, FieldKind::KOptArrChild(Child::CRec(RecId::RExternalReference))),
        ("src"@, FieldKind::KSrc),
        ("documentation"@, FieldKind::KOptChild(Child::CDoc)),
        ("flags"@, FieldKind::KDefArrStr),
    ]
}

/// The members of a placeholderStatement record.
pub open spec fn schema_placeholder_statement() -> Seq<(Seq<char>, FieldKind)> {
    seq![
        ("id"@, FieldKind::KI64),
        ("src"@, FieldKind::KSrc),
    ]
}

/// The members of a return record.
pub open spec fn schema_return_statement() -> Seq<(Seq<char>, FieldKind)> {
    seq![
        ("id"@, FieldKind::KI64),
        ("functionReturnParameters"@, FieldKind::KI64),
        ("expression"@, FieldKind::KOptChild(Child::CFam(Fam::Expr))),
        ("src"@, FieldKind::KSrc),
    ]
}

/// The members of a revertStatement record.
pub open spec fn schema_revert_statement() -> Seq<(Seq<char>, FieldKind)> {
    seq![
        ("id"@, FieldKind::KI64),
        ("errorCall"@, FieldKind::KChild(Child::CRec(RecId::RFunctionCall))),
        ("src"@, FieldKind::KSrc),
    ]
}

/// The members of a tryCatchClause record.
pub open spec fn schema_try_catch_clause() -> Seq<(Seq<char>, FieldKind)> {
    seq![
        ("id"@, FieldKind::KI64),
        ("kind"@, FieldKind::KStr),
        ("errorName"@, FieldKind::KOptStr),
        ("parameters"@, FieldKind::KOptChild(Child::CRec(RecId::RParameterList))),
        ("block"@, FieldKind::KChild(Child::CRec(RecId::RBlock))),
        ("src"@, FieldKind::KSrc),
    ]
}

/// The members of a tryStatement record.
pub open spec fn schema_try_statement() -> Seq<(Seq<char>, FieldKind)> {
    seq![
        ("id"@, FieldKind::KI64),
        ("expression"@, FieldKind::KChild(Child::CFam(Fam::Expr))),
        ("returnParameters"@, FieldKind::KChild(Child::CRec(RecId::RParameterList))),
        ("clauses"@, FieldKind::KArrChild(Child::CRec(RecId::RTryCatchClause))),
        ("src"@, FieldKind::KSrc),
    ]
}

/// The members of a variableDeclarationStatement record.
pub open spec fn schema_variable_declaration_statement() -> Seq<(Seq<char>, FieldKind)> {
    seq![
        ("id"@, FieldKind::KI64),
        ("assignments"@, FieldKind::KArrOptI64),
        ("declarations"@, FieldKind::KArrOptChild(Child::CRec(RecId::RVariableDeclaration))),
        ("initialValue"@, FieldKind::KOptChild(Child::CFam(Fam::Expr))),
        ("src"@, FieldKind::KSrc),
        ("documentation"@, FieldKind::KOptChild(Child::CDoc)),
    ]
}

/// The members of a whileStatement record.
pub open spec fn schema_while_statement() -> Seq<(Seq<char>, FieldKind)> {
    seq![
        ("id"@, FieldKind::KI64),
        ("condition"@, FieldKind::KChild(Child::CFam(Fam::Expr))),
        ("body"@, FieldKind::KChild(Child::CFam(Fam::Stmt))),
        ("src"@, FieldKind::KSrc),
    ]
}

/// The members of a variableDeclaration record.
pub open spec fn schema_variable_declaration() -> Seq<(Seq<char>, FieldKind)> {
    seq![
        ("id"@, FieldKind::KI64),
        ("name"@, FieldKind::KStr),
        ("typeName"@, FieldKind::KOptChild(Child::CFam(Fam::TypeName))),
        ("src"@, FieldKind::KSrc),
        ("nameLocation"@, FieldKind::KOptStr),
        ("visibility"@, FieldKind::KEnum(EnumId::EVisibility)),
        ("stateMutability"@, FieldKind::KOptEnum(EnumId::EStateMutability)),
        ("mutability"@, FieldKind::KOptEnum(EnumId::EMutability)),
        ("stateVariable"@, FieldKind::KOptBool),
        ("storageLocation"@, FieldKind::KOptEnum(EnumId::EStorageLocation)),
        ("constant"@, FieldKind::KOptBool),
        ("immutable"@, FieldKind::KOptBool),
        ("indexed"@, FieldKind::KOptBool),
        ("value"@, FieldKind::KOptChild(Child::CFam(Fam::Expr))),
        ("documentation"@, FieldKind::KOptChild(Child::CDoc)),
        ("typeDescriptions"@, FieldKind::KChild(Child::CRec(RecId::RTypeDescriptions))),
        ("overrides"@, FieldKind::KOptChild(Child::CRec(RecId::ROverrideSpecifier))),
        ("scope"@, FieldKind::KOptI64),
    ]
}

/// The members of a modifierInvocation record.
pub open spec fn schema_modifier_invocation() -> Seq<(Seq<char>, FieldKind)> {
    seq![
        ("id"@, FieldKind::KI64),
        ("kind"@, FieldKind::KOptEnum(EnumId::EModifierInvocationKind)),
        ("modifierName"@, FieldKind::KChild(Child::CRec(RecId::RIdentifierPath))),
        ("arguments"@, FieldKind::KOptArrChild(Child::CFam(Fam::Expr))),
        ("src"@, FieldKind::KSrc),
    ]
}

/// The members of a functionDefinition record.
pub open spec fn schema_function_definition() -> Seq<(Seq<char>, FieldKind)> {
    seq![
        ("id"@, FieldKind::KI64),
        ("name"@, FieldKind::KStr),
        ("virtual"@, FieldKind::KBool),
        ("kind"@, FieldKind::KEnum(EnumId::EFunctionKind)),
        ("visibility"@, FieldKind::KEnum(EnumId::EVisibility)),
        ("stateMutability"@, FieldKind::KEnum(EnumId::EStateMutability)),
        ("body"@, FieldKind::KOptChild(Child::CRec(RecId::RBlock))),
        ("parameters"@, FieldKind::KChild(Child::CRec(RecId::RParameterList))),
        ("returnParameters"@, FieldKind::KChild(Child::CRec(RecId::RParameterList))),
        ("modifiers"@, FieldKind::KArrChild(Child::CRec(RecId::RModifierInvocation))),
        ("src"@, FieldKind::KSrc),
        ("scope"@, FieldKind::KI64),
        ("implemented"@, FieldKind::KBool),
        ("documentation"@, FieldKind::KOptChild(Child::CDoc)),
        ("overrides"@, FieldKind::KOptChild(Child::CRec(RecId::ROverrideSpecifier))),
        ("baseFunctions"@, FieldKind::KOptArrI64),
        ("functionSelector"@, FieldKind::KOptStr),
        ("nameLocation"@, FieldKind::KOptStr),
    ]
}

/// The members of a modifierDefinition record.
pub open spec fn schema_modifier_definition() -> Seq<(Seq<char>, FieldKind)> {
    seq![
        ("id"@, FieldKind::KI64),
        ("name"@, FieldKind::KStr),
        ("virtual"@, FieldKind::KBool),
        ("visibility"@, FieldKind::KEnum(EnumId::EVisibility)),
        ("parameters"@, FieldKind::KChild(Child::CRec(RecId::RParameterList))),
        ("body"@, FieldKind::KOptChild(Child::CRec(RecId::RBlock))),
        ("src"@, FieldKind::KSrc),
        ("scope"@, FieldKind::KOptI64),
        ("documentation"@, FieldKind::KOptChild(Child::CDoc)),
        ("overrides"@, FieldKind::KOptChild(Child::CRec(RecId::ROverrideSpecifier))),
    ]
}

/// The members of a enumDefinition record.
pub open spec fn schema_enum_definition() -> Seq<(Seq<char>, FieldKind)> {
    seq![
        ("id"@, FieldKind::KI64),
        ("name"@, FieldKind::KStr),
        ("members"@, FieldKind::KArrChild(Child::CRec(RecId::REnumValue))),
        ("src"@, FieldKind::KSrc),
        ("scope"@, FieldKind::KOptI64),
        ("documentation"@, FieldKind::KOptChild(Child::CDoc)),
        ("canonicalName"@, FieldKind::KOptStr),
    ]
}

/// The members of a userDefinedValueTypeDefinition record.
pub open spec fn schema_user_defined_value_type_definition() -> Seq<(Seq<char>, FieldKind)> {
    seq![
        ("id"@, FieldKind::KI64),
        ("name"@, FieldKind::KStr),
        ("src"@, FieldKind::KSrc),
        ("canonicalName"@, FieldKind::KOptStr),
        ("nameLocation"@, FieldKind::KOptStr),
        ("underlyingType"@, FieldKind::KChild(Child::CFam(Fam::TypeName))),
    ]
}

/// The members of a errorDefinition record.
pub open spec fn schema_error_definition() -> Seq<(Seq<char>, FieldKind)> {
    seq![
        ("id"@, FieldKind::KI64),
        ("name"@, FieldKind::KStr),
        ("parameters"@, FieldKind::KChild(Child::CRec(RecId::RParameterList))),
        ("src"@, FieldKind::KSrc),
        ("scope"@, FieldKind::KOptI64),
        ("documentation"@, FieldKind::KOptChild(Child::CDoc)),
    ]
}

/// The members of a eventDefinition record.
pub open spec fn schema_event_definition() -> Seq<(Seq<char>, FieldKind)> {
    seq![
        ("id"@, FieldKind::KI64),
        ("name"@, FieldKind::KStr),
        ("anonymous"@, FieldKind::KBool),
        ("eventSelector"@, FieldKind::KOptStr),
        ("parameters"@, FieldKind::KChild(Child::CRec(RecId::RParameterList))),
        ("src"@, FieldKind::KSrc),
        ("scope"@, FieldKind::KOptI64),
        ("nameLocation"@, FieldKind::KOptStr),
        ("documentation"@, FieldKind::KOptChild(Child::CDoc)),
    ]
}

/// The members of a structDefinition record.
pub open spec fn schema_struct_definition() -> Seq<(Seq<char>, FieldKind)> {
    seq![
        ("id"@, FieldKind::KI64),
        ("name"@, FieldKind::KStr),
        ("members"@, FieldKind::KArrChild(Child::CRec(RecId::RVariableDeclaration))),
        ("src"@, FieldKind::KSrc),
        ("scope"@, FieldKind::KOptI64),
        ("documentation"@, FieldKind::KOptChild(Child::CDoc)),
        ("canonicalName"@, FieldKind::KOptStr),
        ("usedInEvents"@, FieldKind::KOptBool),
    ]
}

/// The members of a inheritanceSpecifier record.
pub open spec fn schema_inheritance_specifier() -> Seq<(Seq<char>, FieldKind)> {
    seq![
        ("id"@, FieldKind::KI64),
        ("baseName"@, FieldKind::KChild(Child::CRec(RecId::RIdentifierPath))),
        ("arguments"@, FieldKind::KOptArrChild(Child::CFam(Fam::Expr))),
        ("src"@, FieldKind::KSrc),
    ]
}

/// The members of a usingForDirective record.
pub open spec fn schema_using_for_directive() -> Seq<(Seq<char>, FieldKind)> {
    seq![
        ("id"@, FieldKind::KI64),
        ("libraryName"@, FieldKind::KOptChild(Child::CRec(RecId::RIdentifierPath))),
        ("typeName"@, FieldKind::KOptChild(Child::CRec(RecId::RUserDefinedTypeName))),
        ("operations"@, FieldKind::KOptArrStr),
        ("src"@, FieldKind::KSrc),
        ("global"@, FieldKind::KOptBool),
        ("scope"@, FieldKind::KOptI64),
    ]
}

/// The members of a importDirective record.
pub open spec fn schema_import_directive() -> Seq<(Seq<char>, FieldKind)> {
    seq![
        ("id"@, FieldKind::KI64),
        ("absolutePath"@, FieldKind::KStr),
        ("file"@, FieldKind::KStr),
        ("unitAlias"@, FieldKind::KOptStr),
        ("symbolAliases"@, FieldKind::KDefArrChild(Child::CRec(RecId::RSymbolAlias))),
        ("scope"@, FieldKind::KOptI64),
        ("sourceUnit"@, FieldKind::KOptI64),
        ("src"@, FieldKind::KSrc),
        ("nameLocation"@, FieldKind::KOptStr),
    ]
}

/// The members of a pragmaDirective record.
pub open spec fn schema_pragma_directive() -> Seq<(Seq<char>, FieldKind)> {
    seq![
        ("id"@, FieldKind::KI64),
        ("literals"@, FieldKind::KArrStr),
        ("src"@, FieldKind::KSrc),
    ]
}

/// The members of a contractDefinition record.
pub open spec fn schema_contract_definition() -> Seq<(Seq<char>, FieldKind)> {
    seq![
        ("id"@, FieldKind::KI64),
        ("name"@, FieldKind::KStr),
        ("contractKind"@, FieldKind::KEnum(EnumId::EContractKind)),
        ("abstract"@, FieldKind::KBoolOrInt),
        ("fullyImplemented"@, FieldKind::KBoolOrInt),
        ("linearizedBaseContracts"@, FieldKind::KArrI64),
        ("nodes"@, FieldKind::KDefArrChild(Child::CFam(Fam::Contract))),
        ("scope"@, FieldKind::KOptI64),
        ("src"@, FieldKind::KSrc),
        ("documentation"@, FieldKind::KOptChild(Child::CDoc)),
        ("baseContracts"@, FieldKind::KOptArrChild(Child::CRec(RecId::RInheritanceSpecifier))),
        ("canonicalName"@, FieldKind::KOptStr),
        ("contractDependencies"@, FieldKind::KOptArrI64),
        ("nameLocation"@, FieldKind::KOptStr),
        ("usedErrors"@, FieldKind::KOptArrI64),
        ("usedEvents"@, FieldKind::KOptArrI64),
    ]
}

/// The members of a sourceUnit record.
pub open spec fn schema_source_unit() -> Seq<(Seq<char>, FieldKind)> {
    seq![
        ("id"@, FieldKind::KI64),
        ("absolutePath"@, FieldKind::KStr),
        ("exportedSymbols"@, FieldKind::KMapArrI64Def),
        ("src"@, FieldKind::KSrc),
        ("nodes"@, FieldKind::KArrChild(Child::CFam(Fam::SourceUnit))),
        ("license"@, FieldKind::KOptStr),
    ]
}

/// Canonicalizes a discriminated node of family `f`: the object's
/// discriminator selects the record, whose schema then applies; the
/// canonical form keeps the discriminator as its first member.
pub open spec fn canon_node(v: JsonV, f: Fam) -> Result<JsonV, ErrV>
    decreases v, 0int, 0int,
{
    match v {
        JsonV::Obj(ps) => match jv_lookup(ps, tag_key(f)) {
            None => Err(ErrV::Missing(tag_key(f))),
            Some(tv) => match tv {
                JsonV::Str(tag) => match fam_rec(f, tag) {
                    None => Err(ErrV::UnknownDiscriminator(tag)),
                    Some(rid) => match canon_fields(ps, schema(rid), 0) {
                        Err(e) => Err(e),
                        Ok(fields) => if rec_tagged_field(rid) {
                            Ok(JsonV::Obj(fields))
                        } else {
                            Ok(JsonV::Obj(seq![(tag_key(f), JsonV::Str(tag))] + fields))
                        },
                    },
                },
                _ => Err(ErrV::Invalid(tag_key(f))),
            },
        },
        _ => Err(ErrV::NotAnObject),
    }
}

/// Canonicalizes a fixed record: the object must satisfy the record's
/// schema; unknown members are dropped.
pub open spec fn canon_rec(v: JsonV, r: RecId) -> Result<JsonV, ErrV>
    decreases v, 0int, 0int,
{
    match v {
        JsonV::Obj(ps) => match canon_fields(ps, schema(r), 0) {
            Err(e) => Err(e),
            Ok(fields) => Ok(JsonV::Obj(fields)),
        },
        _ => Err(ErrV::NotAnObject),
    }
}

/// Canonicalizes a documentation value: either a bare string, or a
/// structured documentation record.
pub open spec fn canon_doc(v: JsonV) -> Result<JsonV, ErrV>
    decreases v, 0int, 0int,
{
    match v {
        JsonV::Str(s) => Ok(JsonV::Str(s)),
        JsonV::Obj(ps) => match canon_fields(ps, schema(RecId::RStructuredDocumentation), 0) {
            Err(e) => Err(e),
            Ok(fields) => Ok(JsonV::Obj(fields)),
        },
        _ => Err(ErrV::Invalid(Seq::empty())),
    }
}

/// Canonicalizes the members of an object against a schema, from entry `i`
/// on: the first failing member fails the record, in schema order.
pub open spec fn canon_fields(
    ps: Seq<(Seq<char>, JsonV)>,
    fs: Seq<(Seq<char>, FieldKind)>,
    i: int,
) -> Result<Seq<(Seq<char>, JsonV)>, ErrV>
    decreases ps, 5int, fs.len() - i,
{
    if i < 0 || i >= fs.len() {
        Ok(Seq::empty())
    } else {
        match canon_field(ps, fs[i].0, fs[i].1) {
            Err(e) => Err(e),
            Ok(mv) => match canon_fields(ps, fs, i + 1) {
                Err(e) => Err(e),
                Ok(rest) => match mv {
                    None => Ok(rest),
                    Some(cv) => Ok(seq![(fs[i].0, cv)] + rest),
                },
            },
        }
    }
}

/// Canonicalizes one member: looks the key up, applies the member's kind,
/// supplies the default of an absent optional member, and qualifies any
/// failure with the key.
#[verifier::opaque]
pub open spec fn canon_field(ps: Seq<(Seq<char>, JsonV)>, k: Seq<char>, kind: FieldKind) -> Result<
    Option<JsonV>,
    ErrV,
>
    decreases ps, 4int, 1int,
{
    match jv_lookup(ps, k) {
        None => match kind {
            FieldKind::KOptI64 => Ok(Some(JsonV::Null)),
            FieldKind::KOptStr => Ok(Some(JsonV::Null)),
            FieldKind::KOptBool => Ok(Some(JsonV::Null)),
            FieldKind::KOptStrOmit => Ok(None),
            FieldKind::KOptEnum(_) => Ok(Some(JsonV::Null)),
            FieldKind::KOptFree => Ok(Some(JsonV::Null)),
            FieldKind::KOptArrI64 => Ok(Some(JsonV::Null)),
            FieldKind::KOptArrStr => Ok(Some(JsonV::Null)),
            FieldKind::KDefArrI64 => Ok(Some(JsonV::Arr(Seq::empty()))),
            FieldKind::KDefArrStr => Ok(Some(JsonV::Arr(Seq::empty()))),
            FieldKind::KDefArrChild(_) => Ok(Some(JsonV::Arr(Seq::empty()))),
            FieldKind::KMapArrI64Def => Ok(Some(JsonV::Obj(Seq::empty()))),
            FieldKind::KOptChild(_) => Ok(Some(JsonV::Null)),
            FieldKind::KOptArrChild(_) => Ok(Some(JsonV::Null)),
            FieldKind::KBoolPrefixAlias => {
                match jv_lookup(ps, "prefix"@) {
                    Some(JsonV::Bool(b)) => Ok(Some(JsonV::Bool(b))),
                    Some(_) => Err(ErrV::Invalid("prefix"@)),
                    None => Err(ErrV::Missing(k)),
                }
            },
            _ => Err(ErrV::Missing(k)),
        },
        Some(v) => {
            proof {
                lemma_jv_lookup_is_member(ps, k);
                let j = choose|j: int| 0 <= j < ps.len() && ps[j] == (k, v);
                assert(decreases_to!(ps => ps[j].1));
            }
            if kind is KOptStrOmit && v is Null {
                Ok(None)
            } else {
                match canon_value(v, kind) {
                    Err(e) => Err(prefix_err(k, e)),
                    Ok(cv) => Ok(Some(cv)),
                }
            }
        },
    }
}

/// Canonicalizes one member value against its kind.
#[verifier::opaque]
pub open spec fn canon_value(v: JsonV, kind: FieldKind) -> Result<JsonV, ErrV>
    decreases v, 3int, 0int,
{
    match kind {
        FieldKind::KTag(rid) => canon_tag_v(v, rid),
        FieldKind::KI64 => canon_i64_v(v),
        FieldKind::KStr => canon_str_v(v),
        FieldKind::KBool => canon_bool_v(v),
        FieldKind::KBoolPrefixAlias => canon_bool_v(v),
        FieldKind::KBoolOrInt => canon_bool_or_int_v(v),
        FieldKind::KOptI64 => canon_opt_i64_v(v),
        FieldKind::KOptStr => canon_opt_str_v(v),
        FieldKind::KOptStrOmit => canon_opt_str_v(v),
        FieldKind::KOptBool => canon_opt_bool_v(v),
        FieldKind::KSrc => canon_src_v(v),
        FieldKind::KElem => canon_elem_v(v),
        FieldKind::KEnum(e) => canon_enum_v(v, e),
        FieldKind::KOptEnum(e) => canon_opt_enum_v(v, e),
        FieldKind::KFree => Ok(v),
        FieldKind::KOptFree => Ok(v),
        FieldKind::KArrI64 => canon_arr_v(v, FieldKind::KI64),
        FieldKind::KDefArrI64 => canon_arr_v(v, FieldKind::KI64),
        FieldKind::KOptArrI64 => canon_opt_arr_v(v, FieldKind::KI64),
        FieldKind::KArrOptI64 => canon_arr_v(v, FieldKind::KOptI64),
        FieldKind::KArrStr => canon_arr_v(v, FieldKind::KStr),
        FieldKind::KDefArrStr => canon_arr_v(v, FieldKind::KStr),
        FieldKind::KOptArrStr => canon_opt_arr_v(v, FieldKind::KStr),
        FieldKind::KMapArrI64Def => canon_map_v(v),
        FieldKind::KChild(c) => canon_child_v(v, c),
        FieldKind::KOptChild(c) => canon_opt_child_v(v, c),
        FieldKind::KArrChild(c) => canon_arr_v(v, FieldKind::KChild(c)),
        FieldKind::KDefArrChild(c) => canon_arr_v(v, FieldKind::KChild(c)),
        FieldKind::KOptArrChild(c) => canon_opt_arr_v(v, FieldKind::KChild(c)),
        FieldKind::KArrOptChild(c) => canon_arr_v(v, FieldKind::KOptChild(c)),
    }
}

/// A record's stored discriminator: a string equal to the record's tag.
pub open spec fn canon_tag_v(v: JsonV, rid: RecId) -> Result<JsonV, ErrV> {
    match v {
        JsonV::Str(s) => if s == rec_tag(rid) {
            Ok(JsonV::Str(s))
        } else {
            Err(ErrV::Invalid(Seq::empty()))
        },
        _ => Err(ErrV::Invalid(Seq::empty())),
    }
}

/// A required integer.
pub open spec fn canon_i64_v(v: JsonV) -> Result<JsonV, ErrV> {
    match v {
        JsonV::Int(n) => Ok(JsonV::Int(n)),
        _ => Err(ErrV::Invalid(Seq::empty())),
    }
}

/// A required string.
pub open spec fn canon_str_v(v: JsonV) -> Result<JsonV, ErrV> {
    match v {
        JsonV::Str(s) => Ok(JsonV::Str(s)),
        _ => Err(ErrV::Invalid(Seq::empty())),
    }
}

/// A required boolean.
pub open spec fn canon_bool_v(v: JsonV) -> Result<JsonV, ErrV> {
    match v {
        JsonV::Bool(b) => Ok(JsonV::Bool(b)),
        _ => Err(ErrV::Invalid(Seq::empty())),
    }
}

/// A boolean possibly stored as `0` or `1`; the canonical form is a boolean.
pub open spec fn canon_bool_or_int_v(v: JsonV) -> Result<JsonV, ErrV> {
    match v {
        JsonV::Bool(b) => Ok(JsonV::Bool(b)),
        JsonV::Int(n) => if n == 0 {
            Ok(JsonV::Bool(false))
        } else if n == 1 {
            Ok(JsonV::Bool(true))
        } else {
            Err(ErrV::Invalid(Seq::empty()))
        },
        _ => Err(ErrV::Invalid(Seq::empty())),
    }
}

/// An optional integer.
pub open spec fn canon_opt_i64_v(v: JsonV) -> Result<JsonV, ErrV> {
    match v {
        JsonV::Null => Ok(JsonV::Null),
        JsonV::Int(n) => Ok(JsonV::Int(n)),
        _ => Err(ErrV::Invalid(Seq::empty())),
    }
}

/// An optional string.
pub open spec fn canon_opt_str_v(v: JsonV) -> Result<JsonV, ErrV> {
    match v {
        JsonV::Null => Ok(JsonV::Null),
        JsonV::Str(s) => Ok(JsonV::Str(s)),
        _ => Err(ErrV::Invalid(Seq::empty())),
    }
}

/// An optional boolean.
pub open spec fn canon_opt_bool_v(v: JsonV) -> Result<JsonV, ErrV> {
    match v {
        JsonV::Null => Ok(JsonV::Null),
        JsonV::Bool(b) => Ok(JsonV::Bool(b)),
        _ => Err(ErrV::Invalid(Seq::empty())),
    }
}

/// A packed source location: re-rendered canonically when it decodes.
pub open spec fn canon_src_v(v: JsonV) -> Result<JsonV, ErrV> {
    match v {
        JsonV::Str(s) => match spec_decode_location(s) {
            Ok(l) => Ok(JsonV::Str(spec_encode_location(l))),
            Err(m) => Err(ErrV::Scalar(Seq::empty(), m)),
        },
        _ => Err(ErrV::Invalid(Seq::empty())),
    }
}

/// An elementary type spelling: re-rendered canonically when it decodes.
pub open spec fn canon_elem_v(v: JsonV) -> Result<JsonV, ErrV> {
    match v {
        JsonV::Str(s) => match spec_decode_elementary(s) {
            Ok(t) => Ok(JsonV::Str(spec_encode_elementary(t))),
            Err(m) => Err(ErrV::Scalar(Seq::empty(), m)),
        },
        _ => Err(ErrV::Invalid(Seq::empty())),
    }
}

/// A member of a closed string enumeration.
pub open spec fn canon_enum_v(v: JsonV, e: EnumId) -> Result<JsonV, ErrV> {
    match v {
        JsonV::Str(s) => if enum_ok(e, s) {
            Ok(JsonV::Str(s))
        } else {
            Err(ErrV::Invalid(Seq::empty()))
        },
        _ => Err(ErrV::Invalid(Seq::empty())),
    }
}

/// An optional member of a closed string enumeration.
pub open spec fn canon_opt_enum_v(v: JsonV, e: EnumId) -> Result<JsonV, ErrV> {
    match v {
        JsonV::Null => Ok(JsonV::Null),
        _ => canon_enum_v(v, e),
    }
}

/// An array whose elements canonicalize element-wise.
pub open spec fn canon_arr_v(v: JsonV, ek: FieldKind) -> Result<JsonV, ErrV>
    decreases v, 2int, 0int,
{
    match v {
        JsonV::Arr(elems) => match canon_elems(elems, 0, ek) {
            Ok(cs) => Ok(JsonV::Arr(cs)),
            Err(e) => Err(e),
        },
        _ => Err(ErrV::Invalid(Seq::empty())),
    }
}

/// An optional array.
pub open spec fn canon_opt_arr_v(v: JsonV, ek: FieldKind) -> Result<JsonV, ErrV>
    decreases v, 2int, 1int,
{
    match v {
        JsonV::Null => Ok(JsonV::Null),
        _ => canon_arr_v(v, ek),
    }
}

/// A mapping from names to arrays of integers.
pub open spec fn canon_map_v(v: JsonV) -> Result<JsonV, ErrV>
    decreases v, 2int, 0int,
{
    match v {
        JsonV::Obj(members) => match canon_members(members, 0) {
            Ok(cs) => Ok(JsonV::Obj(cs)),
            Err(e) => Err(e),
        },
        _ => Err(ErrV::Invalid(Seq::empty())),
    }
}

/// A required child; a node-level "not an object" becomes an invalid member.
pub open spec fn canon_child_v(v: JsonV, c: Child) -> Result<JsonV, ErrV>
    decreases v, 2int, 0int,
{
    match canon_child(v, c) {
        Ok(cv) => Ok(cv),
        Err(e) => if e is NotAnObject {
            Err(ErrV::Invalid(Seq::empty()))
        } else {
            Err(e)
        },
    }
}

/// An optional child.
pub open spec fn canon_opt_child_v(v: JsonV, c: Child) -> Result<JsonV, ErrV>
    decreases v, 2int, 1int,
{
    match v {
        JsonV::Null => Ok(JsonV::Null),
        _ => canon_child_v(v, c),
    }
}

/// Canonicalizes one child value.
pub open spec fn canon_child(v: JsonV, c: Child) -> Result<JsonV, ErrV>
    decreases v, 1int, 0int,
{
    match c {
        Child::CFam(f) => canon_node(v, f),
        Child::CRec(r) => canon_rec(v, r),
        Child::CDoc => canon_doc(v),
    }
}

/// Canonicalizes the elements of an array from index `i` on; a failing
/// element's path is qualified with its index.
pub open spec fn canon_elems(elems: Seq<JsonV>, i: int, kind: FieldKind) -> Result<
    Seq<JsonV>,
    ErrV,
>
    decreases elems, 6int, elems.len() - i,
{
    if i < 0 || i >= elems.len() {
        Ok(Seq::empty())
    } else {
        match canon_value(elems[i], kind) {
            Err(e) => Err(prefix_err(idx_path(i), e)),
            Ok(cv) => match canon_elems(elems, i + 1, kind) {
                Err(e) => Err(e),
                Ok(rest) => Ok(seq![cv] + rest),
            },
        }
    }
}

/// Canonicalizes the members of a name-to-integer-array mapping from member
/// `i` on, keeping the members' order.
pub open spec fn canon_members(members: Seq<(Seq<char>, JsonV)>, i: int) -> Result<
    Seq<(Seq<char>, JsonV)>,
    ErrV,
>
    decreases members, 6int, members.len() - i,
{
    if i < 0 || i >= members.len() {
        Ok(Seq::empty())
    } else {
        match canon_value(members[i].1, FieldKind::KArrI64) {
            Err(e) => Err(prefix_err(members[i].0, e)),
            Ok(cv) => match canon_members(members, i + 1) {
                Err(e) => Err(e),
                Ok(rest) => Ok(seq![(members[i].0, cv)] + rest),
            },
        }
    }
}

/// A decode failure: the path of the failing member within the decoded
/// record, and what was wrong with it.
#[derive(Debug, Clone, PartialEq, Eq)]
pub enum DecodeError {
    /// The decoded value is not a JSON object.
    NotAnObject,
    /// A required member is absent.
    Missing(String),
    /// A member has the wrong shape.
    Invalid(String),
    /// A compact scalar inside a member was rejected.
    Scalar(String, crate::ast::error::Error),
    /// The discriminator value is not in the family's vocabulary.
    UnknownDiscriminator(String),
}

impl DecodeError {
    /// The model of this failure.
    pub open spec fn model(self) -> ErrV {
        match self {
            DecodeError::NotAnObject => ErrV::NotAnObject,
            DecodeError::Missing(p) => ErrV::Missing(p@),
            DecodeError::Invalid(p) => ErrV::Invalid(p@),
            DecodeError::Scalar(p, e) => ErrV::Scalar(p@, e.model()),
            DecodeError::UnknownDiscriminator(t) => ErrV::UnknownDiscriminator(t@),
        }
    }

    /// The path of the member this failure names, if it names one.
    pub fn path(&self) -> (r: Option<&String>)
        ensures
            match r {
                Some(p) => (self.model() matches ErrV::Missing(q) && p@ == q) || (self.model()
                    matches ErrV::Invalid(q) && p@ == q) || (self.model() matches ErrV::Scalar(
                    q,
                    _,
                ) && p@ == q),
                None => self.model() is NotAnObject || self.model() is UnknownDiscriminator,
            },
    {
        match self {
            DecodeError::NotAnObject => None,
            DecodeError::Missing(p) => Some(p),
            DecodeError::Invalid(p) => Some(p),
            DecodeError::Scalar(p, _) => Some(p),
            DecodeError::UnknownDiscriminator(_) => None,
        }
    }

    /// What [`DecodeError::message`] yields, at the level of the model.
    pub open spec fn message_model(self) -> Seq<char> {
        match self {
            DecodeError::NotAnObject => "not an object"@,
            DecodeError::Missing(p) => "missing field "@ + p@,
            DecodeError::Invalid(p) => "invalid field "@ + p@,
            DecodeError::Scalar(p, e) => "invalid field "@ + p@ + ": "@ + e.message_model(),
            DecodeError::UnknownDiscriminator(t) => "unknown discriminator "@ + t@,
        }
    }

    /// A short human-readable description of the failure.
    pub fn message(&self) -> (r: String)
        ensures
            r@ == self.message_model(),
    {
        match self {
            DecodeError::NotAnObject => String::from_str("not an object"),
            DecodeError::Missing(p) => String::from_str("missing field ").concat(p.as_str()),
            DecodeError::Invalid(p) => String::from_str("invalid field ").concat(p.as_str()),
            DecodeError::Scalar(p, e) => {
                let m = e.message();
                String::from_str("invalid field ").concat(p.as_str()).concat(": ").concat(
                    m.as_str(),
                )
            },
            DecodeError::UnknownDiscriminator(t) => String::from_str(
                "unknown discriminator ",
            ).concat(t.as_str()),
        }
    }
}

/// Joins a member key with the path an inner failure carries.
pub fn join_path_str(k: &str, p: &str) -> (r: String)
    ensures
        r@ == join_path(k@, p@),
{
    if p.is_empty() {
        k.to_owned()
    } else if p.get_char(0) == '[' {
        k.to_owned().concat(p)
    } else {
        let mut out = k.to_owned();
        crate::text::push_char(&mut out, '.');
        proof {
            assert(out@ =~= k@ + seq!['.']);
        }
        out.concat(p)
    }
}

/// Qualifies a failure from inside a member with the member's key.
pub fn prefix_field(k: &str, e: DecodeError) -> (r: DecodeError)
    ensures
        r.model() == prefix_err(k@, e.model()),
{
    match e {
        DecodeError::NotAnObject => DecodeError::Invalid(k.to_owned()),
        DecodeError::Missing(p) => DecodeError::Missing(join_path_str(k, p.as_str())),
        DecodeError::Invalid(p) => DecodeError::Invalid(join_path_str(k, p.as_str())),
        DecodeError::Scalar(p, se) => DecodeError::Scalar(join_path_str(k, p.as_str()), se),
        DecodeError::UnknownDiscriminator(t) => DecodeError::UnknownDiscriminator(t),
    }
}

/// Qualifies a failure from inside an array element with the element index.
pub fn prefix_index(i: usize, e: DecodeError) -> (r: DecodeError)
    ensures
        r.model() == prefix_err(idx_path(i as int), e.model()),
{
    let mut ip = String::new();
    crate::text::push_char(&mut ip, '[');
    let d = crate::text::fmt_u64(i as u64);
    ip.append(d.as_str());
    crate::text::push_char(&mut ip, ']');
    proof {
        assert(ip@ =~= idx_path(i as int));
        assert(idx_path(i as int)[0] == '[');
    }
    match e {
        DecodeError::NotAnObject => DecodeError::Invalid(ip),
        DecodeError::Missing(p) => DecodeError::Missing(join_path_str(ip.as_str(), p.as_str())),
        DecodeError::Invalid(p) => DecodeError::Invalid(join_path_str(ip.as_str(), p.as_str())),
        DecodeError::Scalar(p, se) => DecodeError::Scalar(
            join_path_str(ip.as_str(), p.as_str()),
            se,
        ),
        DecodeError::UnknownDiscriminator(t) => DecodeError::UnknownDiscriminator(t),
    }
}

/// A failure from canonicalizing an object's members never says "not an
/// object": that failure is reserved for the node value itself.
pub proof fn lemma_canon_fields_err_shape(
    ps: Seq<(Seq<char>, JsonV)>,
    fs: Seq<(Seq<char>, FieldKind)>,
    i: int,
)
    ensures
        canon_fields(ps, fs, i) matches Err(e) ==> !(e is NotAnObject),
    decreases fs.len() - i,
{
    reveal(canon_field);
    if i < fs.len() && i >= 0 {
        lemma_canon_fields_err_shape(ps, fs, i + 1);
        lemma_canon_field_err_shape(ps, fs[i].0, fs[i].1);
    }
}

/// A failure from one member is never "not an object" either.
pub proof fn lemma_canon_field_err_shape(ps: Seq<(Seq<char>, JsonV)>, k: Seq<char>, kind: FieldKind)
    ensures
        canon_field(ps, k, kind) matches Err(e) ==> !(e is NotAnObject),
{
    reveal(canon_field);
    reveal(canon_value);
    match jv_lookup(ps, k) {
        Some(v) => {
            if !(kind is KOptStrOmit && v is Null) {
                match canon_value(v, kind) {
                    Err(inner) => {
                        assert(!(prefix_err(k, inner) is NotAnObject));
                    },
                    Ok(_) => {},
                }
            }
        },
        None => {},
    }
}

/// The present members among a sequence of canonical member results, from
/// entry `i` on, in order.
pub open spec fn cat_opts(outs: Seq<(Seq<char>, Option<JsonV>)>, i: int) -> Seq<
    (Seq<char>, JsonV),
>
    decreases outs.len() - i,
{
    if i < 0 || i >= outs.len() {
        Seq::empty()
    } else {
        match outs[i].1 {
            None => cat_opts(outs, i + 1),
            Some(v) => seq![(outs[i].0, v)] + cat_opts(outs, i + 1),
        }
    }
}

/// If every member of the schema canonicalizes as `outs` says, the object's
/// canonical members are the present entries of `outs`, in order.
pub proof fn lemma_canon_fields_ok(
    ps: Seq<(Seq<char>, JsonV)>,
    fs: Seq<(Seq<char>, FieldKind)>,
    outs: Seq<(Seq<char>, Option<JsonV>)>,
    i: int,
)
    requires
        outs.len() == fs.len(),
        forall|j: int| i <= j < fs.len() ==> (#[trigger] outs[j]).0 == fs[j].0 && canon_field(
            ps,
            fs[j].0,
            fs[j].1,
        ) == Ok::<Option<JsonV>, ErrV>(outs[j].1),
    ensures
        canon_fields(ps, fs, i) == Ok::<Seq<(Seq<char>, JsonV)>, ErrV>(cat_opts(outs, i)),
    decreases fs.len() - i,
{
    reveal(canon_field);
    if 0 <= i < fs.len() {
        lemma_canon_fields_ok(ps, fs, outs, i + 1);
    }
}

/// If the members before entry `j` canonicalize and entry `j` fails, the
/// object fails with entry `j`'s failure.
pub proof fn lemma_canon_fields_first_err(
    ps: Seq<(Seq<char>, JsonV)>,
    fs: Seq<(Seq<char>, FieldKind)>,
    i: int,
    j: int,
    e: ErrV,
)
    requires
        0 <= i <= j < fs.len(),
        forall|m: int| i <= m < j ==> canon_field(ps, (#[trigger] fs[m]).0, fs[m].1) is Ok,
        canon_field(ps, fs[j].0, fs[j].1) == Err::<Option<JsonV>, ErrV>(e),
    ensures
        canon_fields(ps, fs, i) == Err::<Seq<(Seq<char>, JsonV)>, ErrV>(e),
    decreases j - i,
{
    reveal(canon_field);
    if i < j {
        lemma_canon_fields_first_err(ps, fs, i + 1, j, e);
    }
}

/// One unfolding of the child-member kind: the child's own canonicalization,
/// with a node-level "not an object" softened to an invalid member.
pub proof fn lemma_canon_value_child_unfold(v: JsonV, c: Child)
    ensures
        canon_value(v, FieldKind::KChild(c)) == (match canon_child(v, c) {
            Ok(cv) => Ok::<JsonV, ErrV>(cv),
            Err(e) => if e is NotAnObject {
                Err::<JsonV, ErrV>(ErrV::Invalid(Seq::empty()))
            } else {
                Err::<JsonV, ErrV>(e)
            },
        }),
{
    reveal(canon_value);
}

/// One unfolding of the optional-child kind.
pub proof fn lemma_canon_value_opt_child_unfold(v: JsonV, c: Child)
    ensures
        canon_value(v, FieldKind::KOptChild(c)) == (if v is Null {
            Ok::<JsonV, ErrV>(JsonV::Null)
        } else {
            canon_value(v, FieldKind::KChild(c))
        }),
{
    reveal_with_fuel(canon_value, 2);
}

/// Whether `kind` is a plain or defaulted array kind with elements of `ek`.
pub open spec fn arr_kind_of(kind: FieldKind, ek: FieldKind) -> bool {
    (kind == FieldKind::KArrI64 && ek == FieldKind::KI64) || (kind == FieldKind::KDefArrI64 && ek
        == FieldKind::KI64) || (kind == FieldKind::KArrOptI64 && ek == FieldKind::KOptI64) || (kind
        == FieldKind::KArrStr && ek == FieldKind::KStr) || (kind == FieldKind::KDefArrStr && ek
        == FieldKind::KStr) || (exists|c: Child|
        (kind == FieldKind::KArrChild(c) || kind == FieldKind::KDefArrChild(c)) && ek
            == FieldKind::KChild(c)) || (exists|c: Child|
        kind == FieldKind::KArrOptChild(c) && ek == FieldKind::KOptChild(c))
}

/// Whether `kind` is an optional array kind with elements of `ek`.
pub open spec fn opt_arr_kind_of(kind: FieldKind, ek: FieldKind) -> bool {
    (kind == FieldKind::KOptArrI64 && ek == FieldKind::KI64) || (kind == FieldKind::KOptArrStr
        && ek == FieldKind::KStr) || (exists|c: Child|
        kind == FieldKind::KOptArrChild(c) && ek == FieldKind::KChild(c))
}

/// An array kind canonicalizes by the element-wise array canonicalization.
pub proof fn lemma_canon_value_arr_unfold(v: JsonV, kind: FieldKind, ek: FieldKind)
    requires
        arr_kind_of(kind, ek),
    ensures
        canon_value(v, kind) == canon_arr_v(v, ek),
{
    reveal(canon_value);
}

/// An optional array kind accepts `null` and otherwise canonicalizes as the
/// array kind does.
pub proof fn lemma_canon_value_opt_arr_unfold(v: JsonV, kind: FieldKind, ek: FieldKind)
    requires
        opt_arr_kind_of(kind, ek),
    ensures
        canon_value(v, kind) == (if v is Null {
            Ok::<JsonV, ErrV>(JsonV::Null)
        } else {
            canon_arr_v(v, ek)
        }),
{
    reveal_with_fuel(canon_value, 2);
}

/// One unfolding of the name-to-integer-array mapping kind.
pub proof fn lemma_canon_value_map_unfold(v: JsonV)
    ensures
        canon_value(v, FieldKind::KMapArrI64Def) == canon_map_v(v),
{
    reveal(canon_value);
}

} // verus!
