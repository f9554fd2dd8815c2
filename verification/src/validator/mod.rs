//! The `Validator` trait: a pluggable capability that inspects a resolved
//! value and may transform or reject it, together with implementations of
//! the trait.

use vstd::prelude::*;

pub mod min_max;
pub mod optional;

pub use min_max::SatMinMaxValidator;
pub use min_max::StrictMinMaxValidator;
pub use optional::FallbackValidator;
pub use optional::RequiredValidator;

verus! {

/// Why a validator rejected a value.
#[derive(Debug, Clone, PartialEq, Eq)]
pub struct ValidationError {
    /// A human-readable account of the rejection.
    pub msg: String,
}

impl View for ValidationError {
    type V = Seq<char>;

    open spec fn view(&self) -> Seq<char> {
        self.msg@
    }
}

impl ValidationError {
    /// A validation error carrying the message `msg`.
    pub fn new(msg: String) -> (r: ValidationError)
        ensures
            r@ == msg@,
    {
        ValidationError { msg }
    }

    /// The human-readable account of the rejection.
    pub fn message(&self) -> (r: &String)
        ensures
            r@ == self@,
    {
        &self.msg
    }
}

/// An environment variable validator, run after the variable has been loaded
/// and parsed. It also validates a substituted default value.
///
/// `validate_spec` pins down, over views, exactly which values the validator
/// accepts and what each accepted value becomes; `validate` is exact with
/// respect to it.
pub trait Validator<T: DeepView>: Sized {
    /// What validation yields on a value with view `val`: the view of the
    /// (possibly transformed) value, or the rejection message.
    spec fn validate_spec(self, val: T::V) -> Result<T::V, Seq<char>>;

    /// The description `description` returns, if any.
    spec fn description_spec(&self) -> Option<Seq<char>>;

    /// Validates `val`, either returning the (possibly transformed) value or
    /// rejecting it, exactly as `validate_spec` says.
    fn validate(self, val: T) -> (r: Result<T, ValidationError>)
        ensures
            match r {
                Ok(w) => self.validate_spec(val.deep_view()) == Ok::<T::V, Seq<char>>(
                    w.deep_view(),
                ),
                Err(e) => self.validate_spec(val.deep_view()) == Err::<T::V, Seq<char>>(e@),
            },
    ;

    /// A human-readable description of the validator, included in rendered
    /// documentation.
    fn description(&self) -> (r: Option<String>)
        ensures
            match r {
                Some(s) => self.description_spec() == Some(s@),
                None => self.description_spec() is None,
            },
    ;
}

/// The no-op validator: accepts every value unchanged and has no
/// description.
impl<T: DeepView> Validator<T> for () {
    open spec fn validate_spec(self, val: T::V) -> Result<T::V, Seq<char>> {
        Ok(val)
    }

    open spec fn description_spec(&self) -> Option<Seq<char>> {
        None
    }

    fn validate(self, val: T) -> (r: Result<T, ValidationError>) {
        Ok(val)
    }

    fn description(&self) -> (r: Option<String>) {
        None
    }
}

} // verus!
