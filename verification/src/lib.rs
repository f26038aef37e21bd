//! Typed models of the Solidity compiler's JSON artifacts: the AST dump, the
//! contract ABI description, and the standard-JSON compiler input, together
//! with verified codecs for the compact string scalars and for a core of the
//! node catalog, stated against a schema-driven canonicalization engine.

pub use abi::Abi;
pub use standard_json_input::StandardJsonInput;

pub mod abi;
pub mod ast;
pub mod input;
pub mod standard_json_input;
pub mod json;
pub mod text;
