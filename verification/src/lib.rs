//! Declarative loading, parsing, validation and documentation of
//! environment-variable-backed configuration values.
//!
//! The core abstraction is [`EnvVarDef`], a typed descriptor of one
//! configuration value: a variable name together with optional metadata
//! (title, description, example), an optional default, and an optional
//! validator. A descriptor is resolved against an explicit [`env::Env`]
//! snapshot by [`EnvVarDef::load`] or [`EnvVarDef::load_option`], and can be
//! rendered as human-readable documentation by `doc`.

use vstd::prelude::*;

pub mod codegen;
pub mod doc;
pub mod env;
pub mod laws;
pub mod text;
pub mod validator;

use crate::env::{Env, EnvEntry, LookupError, env_lookup};
use crate::text::FromText;
use crate::validator::{ValidationError, Validator};
use vstd::string::StringExecFns;

verus! {

/// The mathematical account of a resolution failure, over views.
pub enum LoadErrorModel {
    /// Variable unset or not decodable as text.
    CannotLoad { name: Seq<char>, cause: LookupError },
    /// Variable set, but its text does not satisfy the target type's parse
    /// rule.
    CannotParse { name: Seq<char>, raw: Seq<char> },
    /// Value rejected by the configured validator.
    Validation { msg: Seq<char> },
}

/// Errors which can occur during resolution of an [`EnvVarDef`].
#[derive(Debug, Clone, PartialEq, Eq)]
pub enum LoadError {
    /// The variable is unset or not decodable as text: the variable's name
    /// and the underlying lookup error.
    CannotLoad(String, LookupError),
    /// The variable is set but its text does not parse: the variable's name
    /// and the raw text.
    CannotParse(String, String),
    /// The value was rejected by the configured validator.
    ValidationError(ValidationError),
}

impl View for LoadError {
    type V = LoadErrorModel;

    open spec fn view(&self) -> LoadErrorModel {
        match self {
            LoadError::CannotLoad(n, c) => LoadErrorModel::CannotLoad { name: n@, cause: *c },
            LoadError::CannotParse(n, t) => LoadErrorModel::CannotParse { name: n@, raw: t@ },
            LoadError::ValidationError(e) => LoadErrorModel::Validation { msg: e@ },
        }
    }
}

/// The text `LoadError::message` renders a lookup error as.
pub open spec fn lookup_error_text(e: LookupError) -> Seq<char> {
    match e {
        LookupError::NotPresent => "environment variable not found"@,
        LookupError::NotText => "environment variable was not valid unicode"@,
    }
}

/// The text `LoadError::message` renders a resolution failure as.
pub open spec fn load_error_text(e: LoadErrorModel) -> Seq<char> {
    match e {
        LoadErrorModel::CannotLoad { name, cause } => "Cannot load Env Var "@ + name
            + ", either not set or not valid unicode encoded. error: "@ + lookup_error_text(cause),
        LoadErrorModel::CannotParse { name, raw } => "Cannot parse Env Var "@ + name + " value "@
            + raw,
        LoadErrorModel::Validation { msg } => msg,
    }
}

impl LoadError {
    /// A human-readable account of the failure.
    pub fn message(&self) -> (r: String)
        ensures
            r@ == load_error_text(self@),
    {
        match self {
            LoadError::CannotLoad(n, c) => {
                let mut s = String::from_str("Cannot load Env Var ");
                s.append(n.as_str());
                s.append(", either not set or not valid unicode encoded. error: ");
                match c {
                    LookupError::NotPresent => s.append("environment variable not found"),
                    LookupError::NotText => s.append(
                        "environment variable was not valid unicode",
                    ),
                }
                s
            },
            LoadError::CannotParse(n, t) => {
                let mut s = String::from_str("Cannot parse Env Var ");
                s.append(n.as_str());
                s.append(" value ");
                s.append(t.as_str());
                s
            },
            LoadError::ValidationError(e) => e.message().clone(),
        }
    }
}

/// What resolving the variable `name` against `env` yields before
/// validation: the view of the parsed text when lookup and parsing succeed,
/// otherwise the view of the default when one is configured, otherwise the
/// failure.
pub open spec fn resolved_of<T: FromText>(
    name: Seq<char>,
    default: Option<T::V>,
    env: Seq<EnvEntry>,
) -> Result<T::V, LoadErrorModel> {
    match env_lookup(env, name) {
        Ok(text) => match T::from_text_spec(text) {
            Some(v) => Ok(v),
            None => match default {
                Some(dv) => Ok(dv),
                None => Err(LoadErrorModel::CannotParse { name, raw: text }),
            },
        },
        Err(cause) => match default {
            Some(dv) => Ok(dv),
            None => Err(LoadErrorModel::CannotLoad { name, cause }),
        },
    }
}

/// What the optional-value path resolves to: lookup and parse failures of
/// any kind collapse to `None`, and a configured default is ignored.
pub open spec fn opt_resolved_of<T: FromText>(name: Seq<char>, env: Seq<EnvEntry>) -> Option<
    T::V,
> {
    match env_lookup(env, name) {
        Ok(text) => T::from_text_spec(text),
        Err(_) => None,
    }
}

/// Everything `load` promises of its result `r`: the pre-validation
/// resolution either fails with exactly the recorded error, or yields a
/// value (parsed or default) that the validator, when configured, transforms
/// or rejects exactly as its own specification says.
pub open spec fn load_post<T: FromText, V: Validator<T>>(
    d: EnvVarDef<T, V>,
    env: Seq<EnvEntry>,
    r: Result<T, LoadError>,
) -> bool {
    match resolved_of::<T>(d.name@, d.default.deep_view(), env) {
        Ok(v) => match d.validator {
            Some(vl) => match vl.validate_spec(v) {
                Ok(w) => r matches Ok(out) && out.deep_view() == w,
                Err(m) => r matches Err(e) && e@ == (LoadErrorModel::Validation { msg: m }),
            },
            None => r matches Ok(out) && out.deep_view() == v,
        },
        Err(em) => r matches Err(e) && e@ == em,
    }
}

/// Everything `load_option` promises of its result `r`: absence and
/// unparsable text become `None` rather than errors, the default is ignored,
/// and only the validator, when configured, can fail the call.
pub open spec fn load_option_post<T: FromText, V: Validator<Option<T>>>(
    d: EnvVarDef<T, V>,
    env: Seq<EnvEntry>,
    r: Result<Option<T>, LoadError>,
) -> bool {
    let ov = opt_resolved_of::<T>(d.name@, env);
    match d.validator {
        Some(vl) => match vl.validate_spec(ov) {
            Ok(w) => r matches Ok(out) && out.deep_view() == w,
            Err(m) => r matches Err(e) && e@ == (LoadErrorModel::Validation { msg: m }),
        },
        None => r matches Ok(out) && out.deep_view() == ov,
    }
}

/// A typed descriptor of one environment-variable-backed configuration
/// value.
///
/// `T` is the type of the value; `V` is the type of the optional validator.
/// A descriptor is built once, refined through the `with_*` builder calls
/// (each returning the updated descriptor), and consumed by one resolution
/// call.
#[derive(Debug, Clone, PartialEq, Eq, Hash)]
pub struct EnvVarDef<T, V = ()> {
    /// The environment variable's name; never empty.
    pub name: String,
    /// The value substituted when lookup or parsing fails.
    pub default: Option<T>,
    /// A short human-readable title, for documentation only.
    pub title: Option<String>,
    /// A longer human-readable description, for documentation only.
    pub description: Option<String>,
    /// An example value, for documentation only.
    pub example: Option<T>,
    /// Inspects the resolved value and may transform or reject it.
    pub validator: Option<V>,
}

impl<T, V> EnvVarDef<T, V> {
    /// A descriptor for the variable `name`, with no default, no metadata and
    /// no validator.
    pub fn new(name: &str) -> (r: Self)
        requires
            name@.len() > 0,
        ensures
            r.name@ == name@,
            r.default is None,
            r.title is None,
            r.description is None,
            r.example is None,
            r.validator is None,
    {
        Self {
            name: name.to_owned(),
            title: None,
            description: None,
            default: None,
            example: None,
            validator: None,
        }
    }

    /// Sets the value to fall back to when lookup or parsing fails.
    #[must_use]
    pub fn with_default(self, default: T) -> (r: Self)
        ensures
            r.default == Some(default),
            r.name == self.name,
            r.title == self.title,
            r.description == self.description,
            r.example == self.example,
            r.validator == self.validator,
    {
        Self { default: Some(default), ..self }
    }

    /// Sets the documentation title.
    #[must_use]
    pub fn with_title(self, title: &str) -> (r: Self)
        ensures
            r.title matches Some(t) && t@ == title@,
            r.name == self.name,
            r.default == self.default,
            r.description == self.description,
            r.example == self.example,
            r.validator == self.validator,
    {
        Self { title: Some(title.to_owned()), ..self }
    }

    /// Sets the documentation description.
    #[must_use]
    pub fn with_description(self, description: &str) -> (r: Self)
        ensures
            r.description matches Some(t) && t@ == description@,
            r.name == self.name,
            r.default == self.default,
            r.title == self.title,
            r.example == self.example,
            r.validator == self.validator,
    {
        Self { description: Some(description.to_owned()), ..self }
    }

    /// Sets the documentation example value.
    #[must_use]
    pub fn with_example(self, example: T) -> (r: Self)
        ensures
            r.example == Some(example),
            r.name == self.name,
            r.default == self.default,
            r.title == self.title,
            r.description == self.description,
            r.validator == self.validator,
    {
        Self { example: Some(example), ..self }
    }

    /// Sets the validator that the resolved value is passed through.
    #[must_use]
    pub fn with_validator(self, validator: V) -> (r: Self)
        ensures
            r.validator == Some(validator),
            r.name == self.name,
            r.default == self.default,
            r.title == self.title,
            r.description == self.description,
            r.example == self.example,
    {
        Self { validator: Some(validator), ..self }
    }
}

impl<T: FromText, V: Validator<T>> EnvVarDef<T, V> {
    /// Resolves the descriptor against `env`: looks the variable up, parses
    /// its text by the target type's canonical rule, falls back to the
    /// configured default when lookup or parsing fails, and passes the
    /// outcome through the configured validator. A substituted default is
    /// validated like any other value.
    ///
    /// # Errors
    /// - `LoadError::CannotLoad` (if a default is set, the default is
    ///   returned instead of this error).
    /// - `LoadError::CannotParse` (if a default is set, the default is
    ///   returned instead of this error).
    /// - `LoadError::ValidationError`.
    pub fn load(self, env: &Env) -> (r: Result<T, LoadError>)
        ensures
            load_post(self, env@, r),
    {
        let resolved: T = match env.get(&self.name) {
            Ok(text) => match T::from_text(text.as_str()) {
                Some(v) => v,
                None => match self.default {
                    Some(dv) => dv,
                    None => {
                        return Err(LoadError::CannotParse(self.name, text));
                    },
                },
            },
            Err(cause) => match self.default {
                Some(dv) => dv,
                None => {
                    return Err(LoadError::CannotLoad(self.name, cause));
                },
            },
        };
        match self.validator {
            Some(vl) => match vl.validate(resolved) {
                Ok(w) => Ok(w),
                Err(e) => Err(LoadError::ValidationError(e)),
            },
            None => Ok(resolved),
        }
    }
}

impl<T: FromText, V: Validator<Option<T>>> EnvVarDef<T, V> {
    /// Resolves a variable that may legitimately be absent. Lookup and parse
    /// failures of any kind collapse to `None` instead of errors, and the
    /// configured default is ignored on this path; the resulting option is
    /// still passed through the configured validator, the only thing that
    /// can fail this call.
    ///
    /// # Errors
    /// - `LoadError::ValidationError`.
    pub fn load_option(self, env: &Env) -> (r: Result<Option<T>, LoadError>)
        ensures
            load_option_post(self, env@, r),
    {
        let val: Option<T> = match env.get(&self.name) {
            Ok(text) => T::from_text(text.as_str()),
            Err(_) => None,
        };
        match self.validator {
            Some(vl) => match vl.validate(val) {
                Ok(w) => Ok(w),
                Err(e) => Err(LoadError::ValidationError(e)),
            },
            None => Ok(val),
        }
    }
}

} // verus!
