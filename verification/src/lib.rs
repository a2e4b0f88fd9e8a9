//! Schema-driven generation of typed query-construction surfaces.
//!
//! A model is a named record with typed fields. From a set of models the
//! library derives, for each of them, the filter operators that every field
//! admits, the names of the items that make up its query surface, and the
//! tagged union of its filter operations. The surface can be had in two
//! forms: as values, through which operations are built and handed to a query
//! surface, and as source text.
//!
//! - [`operators`]: the table from field types to filter operators.
//! - [`schema`]: model descriptors and the registry of declared model names.
//! - [`resolve`]: whether a field is a scalar or a relation, and its operators.
//! - [`naming`]: the names of generated items.
//! - [`generate`]: the selector surface and the operation union of a model.
//! - [`laws`]: what holds of every generated surface.
//! - [`operation`]: field selectors and the operations that they build.
//! - [`client`]: query surfaces and the shared client.
//! - [`emit`]: the source text of a generated surface.
//! - [`derive`]: from a declaration's source text to a surface's source text.

pub mod text;
pub mod naming;
pub mod operators;
pub mod schema;
pub mod resolve;
pub mod generate;
pub mod laws;
pub mod operation;
pub mod client;
pub mod emit;
pub mod derive;

pub use crate::derive::derive_model;
pub use crate::naming::title_case;
pub use crate::operators::type_filters;
