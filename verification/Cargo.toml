[package]
name = "envfig"
version = "0.1.0"
edition = "2021"
publish = false

[dependencies]
console = "*"
proc-macro2 = "*"
quote = "*"
syn = "*"
