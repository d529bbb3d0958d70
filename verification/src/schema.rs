//! The declarative configuration a validator tree is compiled from.
//!
//! A schema exists only during build; nothing of it is retained except
//! the values a built validator must own (a captured default, or the
//! value a captured factory produces).

use vstd::prelude::*;

use crate::value::{SpecValue, Value};
use crate::with_default::OnError;

verus! {

/// A nested schema: a discriminated configuration node per validator
/// kind.
pub enum Schema {
    /// An integer-coercion validator.
    Int,
    /// A validator that accepts any value unchanged.
    Any,
    /// A list validator applying `item` to every element.
    List { item: Box<Schema> },
    /// The default-value decorator: a mandatory inner sub-schema plus
    /// the default sources and failure policy.
    WithDefault {
        default: Option<Value>,
        default_factory: Option<Value>,
        on_error: Option<OnError>,
        validate_default: Option<bool>,
        schema: Box<Schema>,
    },
    /// Defines reference id `id` as a slot holding the inner validator;
    /// inside, `Ref { id }` points back at that slot.
    Recursive { id: u64, schema: Box<Schema> },
    /// A reference to a slot defined by a `Recursive` node.
    Ref { id: u64 },
    /// A discriminator this build pipeline does not recognize; the
    /// offending name is carried so the build error can report it.
    Unknown { kind: String },
}

/// The model of a [`Schema`].
pub enum SpecSchema {
    Int,
    Any,
    List { item: Box<SpecSchema> },
    WithDefault {
        default: Option<SpecValue>,
        default_factory: Option<SpecValue>,
        on_error: Option<OnError>,
        validate_default: Option<bool>,
        schema: Box<SpecSchema>,
    },
    Recursive { id: u64, schema: Box<SpecSchema> },
    Ref { id: u64 },
    Unknown { kind: Seq<char> },
}

impl View for Schema {
    type V = SpecSchema;

    open spec fn view(&self) -> SpecSchema
        decreases self,
    {
        match self {
            Schema::Int => SpecSchema::Int,
            Schema::Any => SpecSchema::Any,
            Schema::List { item } => SpecSchema::List { item: Box::new((**item)@) },
            Schema::WithDefault { default, default_factory, on_error, validate_default, schema } =>
                SpecSchema::WithDefault {
                    default: match default {
                        Option::Some(d) => Option::Some(d@),
                        Option::None => Option::None,
                    },
                    default_factory: match default_factory {
                        Option::Some(d) => Option::Some(d@),
                        Option::None => Option::None,
                    },
                    on_error: *on_error,
                    validate_default: *validate_default,
                    schema: Box::new((**schema)@),
                },
            Schema::Recursive { id, schema } => SpecSchema::Recursive {
                id: *id,
                schema: Box::new((**schema)@),
            },
            Schema::Ref { id } => SpecSchema::Ref { id: *id },
            Schema::Unknown { kind } => SpecSchema::Unknown { kind: kind@ },
        }
    }
}

/// Height of a schema tree: the termination measure of the build
/// recursion.
pub open spec fn ss_height(s: SpecSchema) -> nat
    decreases s,
{
    match s {
        SpecSchema::Int => 0,
        SpecSchema::Any => 0,
        SpecSchema::Ref { .. } => 0,
        SpecSchema::Unknown { .. } => 0,
        SpecSchema::List { item } => ss_height(*item) + 1,
        SpecSchema::Recursive { schema, .. } => ss_height(*schema) + 1,
        SpecSchema::WithDefault { schema, .. } => ss_height(*schema) + 1,
    }
}

/// Ambient build configuration: values that may be set once for a whole
/// compilation instead of per schema node.
pub struct Config {
    pub validate_default: Option<bool>,
}

/// Why a build failed.  Both classes are fatal to the whole
/// compilation: contradictory configuration, and references that the
/// completion pass could not resolve.
pub enum BuildError {
    /// `default` and `default_factory` cannot be used together.
    ConflictingDefaults,
    /// `on_error = substitute` requires a `default` or `default_factory`.
    SubstituteRequiresDefault,
    /// The schema's discriminator is not a known validator kind.
    UnknownKind(String),
    /// Two `Recursive` nodes claim the same reference id.
    DuplicateRef(u64),
    /// A reference id matches no slot after the completion pass.
    UnresolvedRef(u64),
}

/// The model of a [`BuildError`].
pub enum SpecBuildError {
    ConflictingDefaults,
    SubstituteRequiresDefault,
    UnknownKind(Seq<char>),
    DuplicateRef(u64),
    UnresolvedRef(u64),
}

impl View for BuildError {
    type V = SpecBuildError;

    open spec fn view(&self) -> SpecBuildError {
        match self {
            BuildError::ConflictingDefaults => SpecBuildError::ConflictingDefaults,
            BuildError::SubstituteRequiresDefault => SpecBuildError::SubstituteRequiresDefault,
            BuildError::UnknownKind(k) => SpecBuildError::UnknownKind(k@),
            BuildError::DuplicateRef(id) => SpecBuildError::DuplicateRef(*id),
            BuildError::UnresolvedRef(id) => SpecBuildError::UnresolvedRef(*id),
        }
    }
}

} // verus!
