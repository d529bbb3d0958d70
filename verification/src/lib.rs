//! Runtime core of a schema-driven data validation engine.
//!
//! A declarative schema is compiled once into an immutable tree of
//! validators; the tree is then invoked many times to check or coerce
//! input values.  The crate covers the generic composition machinery:
//! the validator capability set, the two-phase build pipeline with a
//! slot table for self-referential schemas, the recursion-bounding
//! guard, the structured-location error model, and the default-value
//! decorator validator that exercises all of it.

pub mod errors;
pub mod guard;
pub mod laws;
pub mod pipeline;
pub mod schema;
pub mod semantics;
pub mod validators;
pub mod value;
pub mod with_default;

pub use errors::{ErrorKind, LocItem, ValError, ValLineError};
pub use pipeline::{build_schema, build_validator, BuildContext, SchemaValidator};
pub use schema::{BuildError, Config, Schema};
pub use validators::{CombinedValidator, Extra, FactoryState, Question};
pub use value::Value;
pub use with_default::{DefaultType, OnError, WithDefaultValidator};
