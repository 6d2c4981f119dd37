[package]
name = "goodcheck"
version = "0.1.0"
edition = "2021"
publish = false

[dependencies]
clap = "4"
globset = "0.4"
grep = "0.3"
ignore = "0.4"
serde = { version = "1", features = ["derive"] }
serde_derive = "1"
serde_yaml = "0.9"
termcolor = "1"
void = "1"
