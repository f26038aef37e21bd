//! The identifier node: a reference to a named entity, one of the most
//! common leaves of the tree.

use vstd::prelude::*;

use crate::ast::common::{SourceLocation, TypeDescriptions};

verus! {

/// A reference to a variable, function, type, or other named entity.
#[derive(Debug, Clone, PartialEq, Eq)]
pub struct Identifier {
    /// Unique identifier assigned by the compiler.
    pub id: i64,
    /// The name of the identifier.
    pub name: String,
    /// The node kind tag, always `"Identifier"`.
    pub node_type: String,
    /// Identities of overloaded declarations, often empty.
    pub overloaded_declarations: Vec<i64>,
    /// Identity of the referenced declaration.
    pub referenced_declaration: Option<i64>,
    /// Source location information.
    pub src: SourceLocation,
    /// Type descriptions provided by the compiler.
    pub type_descriptions: TypeDescriptions,
    /// Types of the arguments, present on callee positions.
    pub argument_types: Option<Vec<TypeDescriptions>>,
}

} // verus!
