//! Validators for the optional-value resolution path, which hands the
//! validator an `Option` so that "value present" and "value absent" can be
//! inspected uniformly.

use vstd::prelude::*;
use vstd::string::StringExecFns;

use crate::validator::{ValidationError, Validator};

verus! {

/// Rejects an absent value: `None` becomes a validation error, a present
/// value passes unchanged.
#[derive(Debug, Clone, Copy, PartialEq, Eq, Hash)]
pub struct RequiredValidator;

impl<T: DeepView> Validator<Option<T>> for RequiredValidator {
    open spec fn validate_spec(self, val: Option<T::V>) -> Result<Option<T::V>, Seq<char>> {
        match val {
            Some(v) => Ok(Some(v)),
            None => Err("a value is required"@),
        }
    }

    open spec fn description_spec(&self) -> Option<Seq<char>> {
        None
    }

    fn validate(self, val: Option<T>) -> (r: Result<Option<T>, ValidationError>) {
        match val {
            Some(v) => Ok(Some(v)),
            None => Err(ValidationError::new(String::from_str("a value is required"))),
        }
    }

    fn description(&self) -> (r: Option<String>) {
        None
    }
}

/// Substitutes a fallback for an absent value: `None` becomes
/// `Some(fallback)`, a present value passes unchanged. Nothing is ever
/// rejected.
#[derive(Debug, Clone, PartialEq, Eq, Hash)]
pub struct FallbackValidator<T> {
    /// The value substituted for an absent one.
    pub fallback: T,
}

impl<T: DeepView> Validator<Option<T>> for FallbackValidator<T> {
    open spec fn validate_spec(self, val: Option<T::V>) -> Result<Option<T::V>, Seq<char>> {
        match val {
            Some(v) => Ok(Some(v)),
            None => Ok(Some(self.fallback.deep_view())),
        }
    }

    open spec fn description_spec(&self) -> Option<Seq<char>> {
        None
    }

    fn validate(self, val: Option<T>) -> (r: Result<Option<T>, ValidationError>) {
        match val {
            Some(v) => Ok(Some(v)),
            None => Ok(Some(self.fallback)),
        }
    }

    fn description(&self) -> (r: Option<String>) {
        None
    }
}

} // verus!
