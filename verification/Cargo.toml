[package]
name = "prediction_markets"
version = "0.1.0"
edition = "2021"
publish = false

[dependencies]
anchor-lang = { version = "=0.31.2", features = ["init-if-needed"] }
arcium-anchor = "=0.3.1"
arcium-client = { version = "=0.3.0", default-features = false }
arcis-imports = "=0.3.0"
