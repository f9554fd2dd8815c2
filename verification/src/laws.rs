//! The laws of resolution, stated and proved against the contracts of
//! `load`, `load_option`, documentation rendering and the generated
//! constructor.

use vstd::prelude::*;

use crate::codegen::{fields_resolved, FieldPlan};
use crate::doc::{doc_text, DocStyle};
use crate::env::{env_lookup, EnvEntry, LookupError};
use crate::text::{FromText, ToText};
use crate::validator::Validator;
use crate::{
    load_option_post, load_post, opt_resolved_of, resolved_of, EnvVarDef, LoadError,
    LoadErrorModel,
};

verus! {

/// For any text that parses: when the variable is set to `text` and no
/// validator is configured, every result `load` may return is exactly the
/// parsed value — whatever default is configured.
pub proof fn lemma_load_returns_parsed<T: FromText, V: Validator<T>>(
    d: EnvVarDef<T, V>,
    text: Seq<char>,
    v: T::V,
    env: Seq<EnvEntry>,
    r: Result<T, LoadError>,
)
    requires
        load_post(d, env, r),
        d.validator is None,
        env_lookup(env, d.name@) == Ok::<Seq<char>, LookupError>(text),
        T::from_text_spec(text) == Some(v),
    ensures
        r matches Ok(out) && out.deep_view() == v,
{
}

/// When the variable is unset (or not decodable as text), a default is
/// configured and no validator is configured: `load` returns the default.
pub proof fn lemma_load_returns_default_when_unset<T: FromText, V: Validator<T>>(
    d: EnvVarDef<T, V>,
    env: Seq<EnvEntry>,
    r: Result<T, LoadError>,
)
    requires
        load_post(d, env, r),
        d.validator is None,
        d.default is Some,
        env_lookup(env, d.name@) is Err,
    ensures
        r matches Ok(out) && out.deep_view() == d.default->0.deep_view(),
{
}

/// When the variable is set to text that does not parse, a default is
/// configured and no validator is configured: `load` returns the default.
pub proof fn lemma_load_returns_default_when_unparsable<T: FromText, V: Validator<T>>(
    d: EnvVarDef<T, V>,
    text: Seq<char>,
    env: Seq<EnvEntry>,
    r: Result<T, LoadError>,
)
    requires
        load_post(d, env, r),
        d.validator is None,
        d.default is Some,
        env_lookup(env, d.name@) == Ok::<Seq<char>, LookupError>(text),
        T::from_text_spec(text) is None,
    ensures
        r matches Ok(out) && out.deep_view() == d.default->0.deep_view(),
{
}

/// When the variable is unset (or not decodable as text) and no default is
/// configured: `load` fails with `CannotLoad`, carrying the variable's name
/// and the lookup failure.
pub proof fn lemma_load_fails_cannot_load<T: FromText, V: Validator<T>>(
    d: EnvVarDef<T, V>,
    cause: LookupError,
    env: Seq<EnvEntry>,
    r: Result<T, LoadError>,
)
    requires
        load_post(d, env, r),
        d.default is None,
        env_lookup(env, d.name@) == Err::<Seq<char>, LookupError>(cause),
    ensures
        r matches Err(e) && e@ == (LoadErrorModel::CannotLoad { name: d.name@, cause }),
{
}

/// When the variable is set to text that does not parse and no default is
/// configured: `load` fails with `CannotParse`, carrying the variable's
/// name and the raw text.
pub proof fn lemma_load_fails_cannot_parse<T: FromText, V: Validator<T>>(
    d: EnvVarDef<T, V>,
    text: Seq<char>,
    env: Seq<EnvEntry>,
    r: Result<T, LoadError>,
)
    requires
        load_post(d, env, r),
        d.default is None,
        env_lookup(env, d.name@) == Ok::<Seq<char>, LookupError>(text),
        T::from_text_spec(text) is None,
    ensures
        r matches Err(e) && e@ == (LoadErrorModel::CannotParse { name: d.name@, raw: text }),
{
}

/// `load_option` never fails because the variable is absent or its text
/// does not parse: with no validator configured it returns "no value" in
/// both cases — regardless of any configured default, which this path
/// ignores.
pub proof fn lemma_load_option_absence_is_no_value<T: FromText, V: Validator<Option<T>>>(
    d: EnvVarDef<T, V>,
    env: Seq<EnvEntry>,
    r: Result<Option<T>, LoadError>,
)
    requires
        load_option_post(d, env, r),
        d.validator is None,
        match env_lookup(env, d.name@) {
            Ok(text) => T::from_text_spec(text) is None,
            Err(_) => true,
        },
    ensures
        r matches Ok(out) && out is None,
{
}

/// With no validator configured, `load_option` cannot fail at all: every
/// result its contract permits is `Ok`, holding exactly the optional
/// resolution of the variable.
pub proof fn lemma_load_option_never_fails<T: FromText, V: Validator<Option<T>>>(
    d: EnvVarDef<T, V>,
    env: Seq<EnvEntry>,
    r: Result<Option<T>, LoadError>,
)
    requires
        load_option_post(d, env, r),
        d.validator is None,
    ensures
        r matches Ok(out) && out.deep_view() == opt_resolved_of::<T>(d.name@, env),
{
}

/// A validator that rejects every value makes `load` fail with a
/// validation error on any otherwise-successful resolution.
pub proof fn lemma_rejecting_validator_fails_load<T: FromText, V: Validator<T>>(
    d: EnvVarDef<T, V>,
    env: Seq<EnvEntry>,
    r: Result<T, LoadError>,
)
    requires
        load_post(d, env, r),
        d.validator is Some,
        forall|v: T::V| (#[trigger] d.validator->0.validate_spec(v)) is Err,
        resolved_of::<T>(d.name@, d.default.deep_view(), env) is Ok,
    ensures
        r matches Err(e) && e@ is Validation,
{
    let v0 = resolved_of::<T>(d.name@, d.default.deep_view(), env)->Ok_0;
    assert(d.validator->0.validate_spec(v0) is Err);
}

/// A validator that rejects every optional value makes `load_option` fail
/// with a validation error — the only error this path can produce.
pub proof fn lemma_rejecting_validator_fails_load_option<T: FromText, V: Validator<Option<T>>>(
    d: EnvVarDef<T, V>,
    env: Seq<EnvEntry>,
    r: Result<Option<T>, LoadError>,
)
    requires
        load_option_post(d, env, r),
        d.validator is Some,
        forall|ov: Option<T::V>| (#[trigger] d.validator->0.validate_spec(ov)) is Err,
    ensures
        r matches Err(e) && e@ is Validation,
{
    let ov0 = opt_resolved_of::<T>(d.name@, env);
    assert(d.validator->0.validate_spec(ov0) is Err);
}

/// A validator that transforms its input makes `load` return the
/// transformation's output, not the originally resolved value.
pub proof fn lemma_validator_transforms<T: FromText, V: Validator<T>>(
    d: EnvVarDef<T, V>,
    env: Seq<EnvEntry>,
    r: Result<T, LoadError>,
    w: T::V,
)
    requires
        load_post(d, env, r),
        d.validator is Some,
        resolved_of::<T>(d.name@, d.default.deep_view(), env) matches Ok(v) && d.validator
            ->0.validate_spec(v) == Ok::<T::V, Seq<char>>(w),
    ensures
        r matches Ok(out) && out.deep_view() == w,
{
}

/// Rendering documentation is pure: the text is a function of the
/// descriptor and the markers alone, so two renderings of the same
/// descriptor under the same markers are identical. (`doc` and `doc_styled`
/// take the descriptor by shared reference, so rendering cannot affect a
/// later resolution.)
pub proof fn lemma_doc_deterministic<T: ToText + DeepView, V: Validator<T>>(
    d: EnvVarDef<T, V>,
    st: DocStyle,
    r1: Seq<char>,
    r2: Seq<char>,
)
    requires
        r1 == doc_text(d, st),
        r2 == doc_text(d, st),
    ensures
        r1 == r2,
{
}

/// When every planned field resolves, the generated constructor succeeds,
/// holding each field's resolved value at the field's own position.
pub proof fn lemma_all_fields_resolve<T: FromText>(plan: Seq<FieldPlan>, env: Seq<EnvEntry>)
    requires
        forall|j: int|
            0 <= j < plan.len() ==> resolved_of::<T>((#[trigger] plan[j]).env_name@, None, env)
                is Ok,
    ensures
        fields_resolved::<T>(plan, env) matches Ok(vals) && vals.len() == plan.len() && forall|
            j: int,
        |
            0 <= j < plan.len() ==> vals[j] == resolved_of::<T>(
                (#[trigger] plan[j]).env_name@,
                None,
                env,
            )->Ok_0,
    decreases plan.len(),
{
    if plan.len() > 0 {
        assert forall|j: int| 0 <= j < plan.len() - 1 implies resolved_of::<T>(
            (#[trigger] plan.drop_first()[j]).env_name@,
            None,
            env,
        ) is Ok by {
            assert(plan.drop_first()[j] == plan[j + 1]);
        }
        lemma_all_fields_resolve::<T>(plan.drop_first(), env);
        let v0 = resolved_of::<T>(plan[0].env_name@, None, env)->Ok_0;
        let rest = fields_resolved::<T>(plan.drop_first(), env)->Ok_0;
        assert(fields_resolved::<T>(plan, env) == Ok::<Seq<T::V>, LoadErrorModel>(
            seq![v0] + rest,
        ));
        assert forall|j: int| 0 <= j < plan.len() implies (seq![v0] + rest)[j] == resolved_of::<T>(
            (#[trigger] plan[j]).env_name@,
            None,
            env,
        )->Ok_0 by {
            if j > 0 {
                assert((seq![v0] + rest)[j] == rest[j - 1]);
                assert(plan.drop_first()[j - 1] == plan[j]);
            }
        }
    }
}

/// The generated constructor resolves fields in declaration order: when the
/// fields before `i` resolve and field `i` fails, the constructor fails
/// with exactly field `i`'s error, whatever comes after it.
pub proof fn lemma_first_field_error<T: FromText>(
    plan: Seq<FieldPlan>,
    env: Seq<EnvEntry>,
    i: int,
    em: LoadErrorModel,
)
    requires
        0 <= i < plan.len(),
        forall|j: int|
            0 <= j < i ==> resolved_of::<T>((#[trigger] plan[j]).env_name@, None, env) is Ok,
        resolved_of::<T>(plan[i].env_name@, None, env) == Err::<T::V, LoadErrorModel>(em),
    ensures
        fields_resolved::<T>(plan, env) == Err::<Seq<T::V>, LoadErrorModel>(em),
    decreases plan.len(),
{
    if i == 0 {
    } else {
        assert(resolved_of::<T>(plan[0].env_name@, None, env) is Ok);
        assert(plan.drop_first()[i - 1] == plan[i]);
        assert forall|j: int| 0 <= j < i - 1 implies resolved_of::<T>(
            (#[trigger] plan.drop_first()[j]).env_name@,
            None,
            env,
        ) is Ok by {
            assert(plan.drop_first()[j] == plan[j + 1]);
        }
        lemma_first_field_error::<T>(plan.drop_first(), env, i - 1, em);
    }
}

} // verus!
