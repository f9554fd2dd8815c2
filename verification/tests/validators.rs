//! Tests of validation during resolution.

use envfig::env::Env;
use envfig::validator::{
    FallbackValidator, RequiredValidator, SatMinMaxValidator, StrictMinMaxValidator,
};
use envfig::{EnvVarDef, LoadError};

fn env_with(name: &str, value: &str) -> Env {
    let mut e = Env::empty();
    e.set(name.to_string(), value.to_string());
    e
}

#[test]
fn load_with_validator_test() {
    let env = env_with("ENV_VAR", "55");

    // A transforming validator: the result is the transformation's output,
    // not the parsed value.
    let env_var: EnvVarDef<u8, _> = EnvVarDef::new("ENV_VAR").with_validator(SatMinMaxValidator {
        min: Some(60),
        max: None,
    });
    assert_eq!(env_var.load(&env).unwrap(), 60);

    // A validator that rejects everything (no value satisfies limits that
    // have crossed): both loading paths fail with a validation error.
    let reject_all = StrictMinMaxValidator::<u8> {
        min: Some(200),
        max: Some(100),
    };
    let env_var: EnvVarDef<u8, _> = EnvVarDef::new("ENV_VAR").with_validator(reject_all);
    assert!(matches!(
        env_var.load(&env),
        Err(LoadError::ValidationError(_))
    ));
}

#[test]
fn load_option_test() {
    let env_var_name = "ENV_VAR";

    let env = env_with(env_var_name, "123");
    let env_var: EnvVarDef<u8> = EnvVarDef::new(env_var_name);
    assert_eq!(env_var.clone().load_option(&env).unwrap(), Some(123));

    let env = Env::empty();
    assert_eq!(env_var.clone().load_option(&env).unwrap(), None);

    let env = env_with(env_var_name, "not a u8 type");
    assert_eq!(env_var.load_option(&env).unwrap(), None);
}

#[test]
fn load_option_with_validator_test() {
    let env = env_with("ENV_VAR", "9");

    // A present value passes through a presence check unchanged.
    let env_var: EnvVarDef<u8, _> = EnvVarDef::new("ENV_VAR").with_validator(RequiredValidator);
    assert_eq!(env_var.load_option(&env).unwrap(), Some(9));

    // An absent value is rejected by the presence check: the only error
    // this path can produce is a validation error.
    let empty = Env::empty();
    let env_var: EnvVarDef<u8, _> = EnvVarDef::new("ENV_VAR").with_validator(RequiredValidator);
    match env_var.load_option(&empty) {
        Err(LoadError::ValidationError(e)) => assert_eq!(e.message(), "a value is required"),
        other => panic!("expected ValidationError, got {:?}", other),
    }

    // Unparsable text collapses to "no value" first, so the presence check
    // rejects it too.
    let bad = env_with("ENV_VAR", "not a u8 type");
    let env_var: EnvVarDef<u8, _> = EnvVarDef::new("ENV_VAR").with_validator(RequiredValidator);
    assert!(matches!(
        env_var.load_option(&bad),
        Err(LoadError::ValidationError(_))
    ));

    // A transforming validator: an absent value becomes the fallback.
    let env_var: EnvVarDef<u8, _> =
        EnvVarDef::new("ENV_VAR").with_validator(FallbackValidator { fallback: 4 });
    assert_eq!(env_var.load_option(&empty).unwrap(), Some(4));

    let env_var: EnvVarDef<u8, _> =
        EnvVarDef::new("ENV_VAR").with_validator(FallbackValidator { fallback: 4 });
    assert_eq!(env_var.load_option(&env).unwrap(), Some(9));
}

#[test]
fn load_option_ignores_default() {
    let env = Env::empty();
    let d: EnvVarDef<u8> = EnvVarDef::new("ENV_VAR").with_default(124);
    assert_eq!(d.load_option(&env).unwrap(), None);

    let env = env_with("ENV_VAR", "junk");
    let d: EnvVarDef<u8> = EnvVarDef::new("ENV_VAR").with_default(124);
    assert_eq!(d.load_option(&env).unwrap(), None);
}

#[test]
fn rejecting_validator_fails_load() {
    let env = env_with("ENV_VAR", "200");
    let d: EnvVarDef<u8, _> = EnvVarDef::new("ENV_VAR").with_validator(StrictMinMaxValidator {
        min: None,
        max: Some(100),
    });
    match d.load(&env) {
        Err(LoadError::ValidationError(e)) => {
            assert_eq!(e.message(), "value above the upper limit");
        }
        other => panic!("expected ValidationError, got {:?}", other),
    }
}

#[test]
fn validator_also_checks_default() {
    let env = Env::empty();
    let d: EnvVarDef<u8, _> = EnvVarDef::new("ENV_VAR")
        .with_default(120)
        .with_validator(StrictMinMaxValidator {
            min: None,
            max: Some(100),
        });
    assert!(matches!(d.load(&env), Err(LoadError::ValidationError(_))));

    let d: EnvVarDef<u8, _> = EnvVarDef::new("ENV_VAR")
        .with_default(90)
        .with_validator(StrictMinMaxValidator {
            min: None,
            max: Some(100),
        });
    assert_eq!(d.load(&env).unwrap(), 90);
}

#[test]
fn sat_min_max_validator_saturates() {
    let v = SatMinMaxValidator::<u8> {
        min: Some(10),
        max: Some(100),
    };
    let d: EnvVarDef<u8, _> = EnvVarDef::new("ENV_VAR").with_validator(v.clone());
    assert_eq!(d.load(&env_with("ENV_VAR", "5")).unwrap(), 10);

    let d: EnvVarDef<u8, _> = EnvVarDef::new("ENV_VAR").with_validator(v.clone());
    assert_eq!(d.load(&env_with("ENV_VAR", "200")).unwrap(), 100);

    let d: EnvVarDef<u8, _> = EnvVarDef::new("ENV_VAR").with_validator(v);
    assert_eq!(d.load(&env_with("ENV_VAR", "50")).unwrap(), 50);

    let unbounded = SatMinMaxValidator::<u64> {
        min: None,
        max: None,
    };
    let d: EnvVarDef<u64, _> = EnvVarDef::new("ENV_VAR").with_validator(unbounded);
    assert_eq!(d.load(&env_with("ENV_VAR", "7")).unwrap(), 7);
}

#[test]
fn strict_min_max_validator_rejects_below() {
    let d: EnvVarDef<u64, _> = EnvVarDef::new("ENV_VAR").with_validator(StrictMinMaxValidator {
        min: Some(10u64),
        max: None,
    });
    match d.load(&env_with("ENV_VAR", "3")) {
        Err(LoadError::ValidationError(e)) => {
            assert_eq!(e.message(), "value below the lower limit");
        }
        other => panic!("expected ValidationError, got {:?}", other),
    }
}
