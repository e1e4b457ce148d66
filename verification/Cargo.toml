[package]
name = "wikitrans"
version = "0.1.0"
edition = "2021"
publish = false

[dependencies]
clap = "=2.34.0"
skim = { version = "=4.4.0", default-features = false }
wikipedia = { version = "=0.3.4", default-features = false }
