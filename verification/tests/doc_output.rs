//! Tests of documentation rendering.

use envfig::doc::DocStyle;
use envfig::env::Env;
use envfig::EnvVarDef;

#[test]
fn doc_test() {
    let env_var = EnvVarDef::<u8>::new("SOME_ENV_VAR")
        .with_title("Some title")
        .with_description("Some huge description with \n making a new line")
        .with_default(10)
        .with_example(15);

    println!("{}", env_var.doc());

    println!("------");
    let env_var = EnvVarDef::<u8>::new("SOME_ENV_VAR")
        .with_description("Some huge description with \n making a new line")
        .with_default(10)
        .with_example(15);

    println!("{}", env_var.doc());

    println!("------");
    let env_var = EnvVarDef::<u8>::new("SOME_ENV_VAR")
        .with_default(10)
        .with_example(15);

    println!("{}", env_var.doc());
}

fn plain_style() -> DocStyle {
    DocStyle {
        name_marker: "*".to_string(),
        meta_marker: "#".to_string(),
        default_marker: "!".to_string(),
        example_marker: "$".to_string(),
        validator_marker: "%".to_string(),
    }
}

#[test]
fn doc_styled_renders_every_section() {
    let env_var = EnvVarDef::<u8>::new("SOME_ENV_VAR")
        .with_title("Some title")
        .with_description("Some description")
        .with_default(10)
        .with_example(15);

    let expected = String::new()
        + "* SOME_ENV_VAR\n\n"
        + "# Some title\n\n"
        + " Some description\n\n"
        + "!  Default: 10\n"
        + "$ Example: export SOME_ENV_VAR=15\n";
    assert_eq!(env_var.doc_styled(&plain_style()), expected);
}

#[test]
fn doc_styled_skips_absent_sections() {
    let env_var = EnvVarDef::<u8>::new("SOME_ENV_VAR");
    assert_eq!(env_var.doc_styled(&plain_style()), "* SOME_ENV_VAR\n\n");

    let env_var = EnvVarDef::<u8>::new("SOME_ENV_VAR").with_default(10);
    assert_eq!(
        env_var.doc_styled(&plain_style()),
        "* SOME_ENV_VAR\n\n!  Default: 10\n"
    );
}

#[test]
fn doc_is_idempotent_and_pure() {
    let env_var = EnvVarDef::<u8>::new("SOME_ENV_VAR")
        .with_title("Some title")
        .with_default(10)
        .with_example(15);

    let first = env_var.doc();
    let second = env_var.doc();
    assert_eq!(first, second);

    let mut e = Env::empty();
    e.set("SOME_ENV_VAR".to_string(), "15".to_string());
    assert_eq!(env_var.load(&e).unwrap(), 15);
}
