[package]
name = "assert_tokenstreams_eq"
version = "0.1.0"
edition = "2021"
publish = false

[dependencies]
pretty_assertions = "1"
thiserror = "1"
