[package]
name = "bb_bot_ota"
version = "0.1.0"
edition = "2021"
publish = false

[dependencies]
semver = "=1.0.28"
reqwless = { version = "=0.14.0", default-features = false }
