[package]
name = "sylvia_derive"
version = "0.1.0"
edition = "2021"
publish = false

[dependencies]
convert_case = "0.6"
proc-macro2 = "1"
quote = "1"
syn = { version = "2", features = ["full", "visit", "fold", "extra-traits"] }
proc-macro-crate = "3"
serde = { version = "1", features = ["derive"] }
serde_json = "1"
cargo_toml = "0.20"
syn-serde = { version = "0.3", features = ["json"] }
