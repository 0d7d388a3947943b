[package]
name = "boomerang"
version = "0.1.0"
edition = "2021"
publish = false

[dependencies]
libtest-mimic = "*"
termcolor = "*"
serde = { version = "*", features = ["derive"] }
serde_yaml = "*"
serde_json = "*"
clap = { version = "*", features = ["derive"] }
tokio = { version = "*", features = ["rt-multi-thread", "macros"] }
cargo_metadata = "*"
