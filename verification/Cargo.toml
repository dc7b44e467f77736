[package]
name = "fluent_number"
version = "0.1.0"
edition = "2021"
publish = false

[dependencies]
intl_pluralrules = "=7.0.2"
