//! Declarative per-field validation: the annotations on the fields of a
//! record are compiled into an ordered list of checks, and a validator built
//! from them returns, for a record, success or the message of the first field
//! that is invalid.
//!
//! `schema` holds the record definition as it arrives, `validate` the rule
//! grammar, `predicate` what rules compile to, `expand` the compiler from a
//! definition to an expansion, `validator` the validator built from one,
//! `evaluate` what checks and rules mean, and `laws` what holds of them all.

use vstd::prelude::*;

pub mod evaluate;
pub mod expand;
pub mod laws;
pub mod matcher;
pub mod number;
pub mod predicate;
pub mod record;
pub mod schema;
pub mod text;
pub mod validate;
pub mod validates;
pub mod validator;

verus! {

/// A record type that validates its own fields.
pub trait FieldsValidate {
    /// Checks the annotated fields in declaration order: success, or the
    /// message of the first field that is invalid.
    fn fields_validate(&self) -> std::result::Result<(), &'static str>;
}

} // verus!
