//! Basic integration tests of the public API of the crate.

use envfig::env::{Env, LookupError};
use envfig::{EnvVarDef, LoadError};

fn env_with(name: &str, value: &str) -> Env {
    let mut e = Env::empty();
    e.set(name.to_string(), value.to_string());
    e
}

#[test]
fn load_test() {
    let env_var_name = "ENV_VAR";
    let env = env_with(env_var_name, "123");
    let env_var: EnvVarDef<u8> = EnvVarDef::new(env_var_name);
    assert_eq!(env_var.clone().load(&env).unwrap(), 123);

    let env = Env::empty();
    assert!(matches!(
        env_var.clone().load(&env),
        Err(LoadError::CannotLoad(_, _))
    ));

    let env = env_with(env_var_name, "not a u8 type");
    assert!(matches!(
        env_var.clone().load(&env),
        Err(LoadError::CannotParse(_, _))
    ));
}

#[test]
fn load_with_default_test() {
    let env_var_name = "ENV_VAR";

    let env = env_with(env_var_name, "42");
    let env_var: EnvVarDef<u8> = EnvVarDef::new(env_var_name).with_default(124);
    assert_eq!(env_var.clone().load(&env).unwrap(), 42);

    let env = Env::empty();
    assert_eq!(env_var.clone().load(&env).unwrap(), 124);

    let env = env_with(env_var_name, "not a u8 type");
    assert_eq!(env_var.clone().load(&env).unwrap(), 124);
}

#[test]
fn set_value_no_default_loads_parsed() {
    let env = env_with("ENV_VAR", "123");
    let d: EnvVarDef<u8> = EnvVarDef::new("ENV_VAR");
    assert_eq!(d.load(&env).unwrap(), 123);
}

#[test]
fn unset_with_default_loads_default() {
    let env = Env::empty();
    let d: EnvVarDef<u8> = EnvVarDef::new("ENV_VAR").with_default(124);
    assert_eq!(d.load(&env).unwrap(), 124);
}

#[test]
fn unparsable_with_default_loads_default() {
    let env = env_with("ENV_VAR", "not a number");
    let d: EnvVarDef<u8> = EnvVarDef::new("ENV_VAR").with_default(124);
    assert_eq!(d.load(&env).unwrap(), 124);
}

#[test]
fn unset_no_default_fails_cannot_load() {
    let env = Env::empty();
    let d: EnvVarDef<u8> = EnvVarDef::new("ENV_VAR");
    match d.load(&env) {
        Err(LoadError::CannotLoad(name, cause)) => {
            assert_eq!(name, "ENV_VAR");
            assert_eq!(cause, LookupError::NotPresent);
        }
        other => panic!("expected CannotLoad, got {:?}", other),
    }
}

#[test]
fn unparsable_no_default_fails_cannot_parse() {
    let env = env_with("ENV_VAR", "200 apples");
    let d: EnvVarDef<u8> = EnvVarDef::new("ENV_VAR");
    match d.load(&env) {
        Err(LoadError::CannotParse(name, raw)) => {
            assert_eq!(name, "ENV_VAR");
            assert_eq!(raw, "200 apples");
        }
        other => panic!("expected CannotParse, got {:?}", other),
    }
}

#[test]
fn non_text_value_fails_cannot_load() {
    let mut env = Env::empty();
    env.set_non_text("ENV_VAR".to_string());
    let d: EnvVarDef<u8> = EnvVarDef::new("ENV_VAR");
    match d.load(&env) {
        Err(LoadError::CannotLoad(name, cause)) => {
            assert_eq!(name, "ENV_VAR");
            assert_eq!(cause, LookupError::NotText);
        }
        other => panic!("expected CannotLoad, got {:?}", other),
    }
}

#[test]
fn first_binding_shadows_later_one() {
    let mut env = Env::empty();
    env.set("ENV_VAR".to_string(), "10".to_string());
    env.set("ENV_VAR".to_string(), "20".to_string());
    let d: EnvVarDef<u8> = EnvVarDef::new("ENV_VAR");
    assert_eq!(d.load(&env).unwrap(), 10);
}

#[test]
fn parse_accepts_plus_sign_and_rejects_overflow() {
    let d: EnvVarDef<u8> = EnvVarDef::new("ENV_VAR");
    assert_eq!(d.clone().load(&env_with("ENV_VAR", "+77")).unwrap(), 77);
    assert_eq!(d.clone().load(&env_with("ENV_VAR", "255")).unwrap(), 255);
    assert!(matches!(
        d.clone().load(&env_with("ENV_VAR", "256")),
        Err(LoadError::CannotParse(_, _))
    ));
    assert!(matches!(
        d.clone().load(&env_with("ENV_VAR", "")),
        Err(LoadError::CannotParse(_, _))
    ));
    assert!(matches!(
        d.clone().load(&env_with("ENV_VAR", "+")),
        Err(LoadError::CannotParse(_, _))
    ));
    assert!(matches!(
        d.clone().load(&env_with("ENV_VAR", "-1")),
        Err(LoadError::CannotParse(_, _))
    ));
    assert_eq!(d.load(&env_with("ENV_VAR", "007")).unwrap(), 7);
}

#[test]
fn parse_other_target_types() {
    let db: EnvVarDef<bool> = EnvVarDef::new("FLAG");
    assert!(db.clone().load(&env_with("FLAG", "true")).unwrap());
    assert!(!db.clone().load(&env_with("FLAG", "false")).unwrap());
    assert!(matches!(
        db.load(&env_with("FLAG", "True")),
        Err(LoadError::CannotParse(_, _))
    ));

    let ds: EnvVarDef<String> = EnvVarDef::new("NAME");
    assert_eq!(ds.load(&env_with("NAME", "some value")).unwrap(), "some value");

    let dm: EnvVarDef<u16> = EnvVarDef::new("PORT");
    assert_eq!(dm.clone().load(&env_with("PORT", "65535")).unwrap(), 65535);
    assert!(matches!(
        dm.load(&env_with("PORT", "65536")),
        Err(LoadError::CannotParse(_, _))
    ));

    let dw: EnvVarDef<u32> = EnvVarDef::new("COUNT");
    assert_eq!(
        dw.load(&env_with("COUNT", "4294967295")).unwrap(),
        u32::MAX
    );

    let dl: EnvVarDef<u64> = EnvVarDef::new("BIG");
    assert_eq!(
        dl.clone().load(&env_with("BIG", "18446744073709551615")).unwrap(),
        u64::MAX
    );
    assert!(matches!(
        dl.load(&env_with("BIG", "18446744073709551616")),
        Err(LoadError::CannotParse(_, _))
    ));
}

#[test]
fn error_messages_name_the_variable() {
    let env = Env::empty();
    let d: EnvVarDef<u8> = EnvVarDef::new("ENV_VAR");
    let err = d.load(&env).unwrap_err();
    assert_eq!(
        err.message(),
        "Cannot load Env Var ENV_VAR, either not set or not valid unicode encoded. \
         error: environment variable not found"
    );

    let d: EnvVarDef<u8> = EnvVarDef::new("ENV_VAR");
    let err = d.load(&env_with("ENV_VAR", "nope")).unwrap_err();
    assert_eq!(err.message(), "Cannot parse Env Var ENV_VAR value nope");
}
