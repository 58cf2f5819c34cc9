[package]
name = "madlad400"
version = "0.1.0"
edition = "2021"
publish = false

[dependencies]
anyhow = "1"
candle-core = "0.11.0"
candle-transformers = "0.11.0"
clap = { version = "4", features = ["derive"] }
hf-hub = "0.3.2"
serde_json = "1"
tokenizers = { version = "0.23.2", default-features = false, features = ["onig"] }
