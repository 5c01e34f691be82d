[package]
name = "versio"
version = "0.1.0"
edition = "2021"
publish = false

[dependencies]
failure = "0.1"
log = "0.4"
semver = "0.9"
structopt = "0.2"
toml_edit = "0.1"
