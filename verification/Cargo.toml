[package]
name = "clap_derive"
version = "0.1.0"
edition = "2021"
publish = false

[dependencies]
heck = "0.3"
clap = { version = "2", default-features = false }
