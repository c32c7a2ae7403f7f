[package]
name = "repolocli"
version = "0.1.0"
edition = "2021"
publish = false

[dependencies]
clap = "=2.34.0"
failure = "=0.1.8"
filters = "=0.3.0"
itertools = "=0.8.2"
librepology = "=0.1.0-alpha.1"
prettytable-rs = { version = "=0.10.0", default-features = false }
rustbreak = { version = "=2.0.0", features = ["yaml_enc"] }
serde = { version = "=1.0.229", features = ["derive"] }
toml = "0.5"
url = { version = "=2.5.8", features = ["serde"] }
