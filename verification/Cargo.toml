[package]
name = "qwen3_embed"
version = "0.1.0"
edition = "2021"
publish = false

[dependencies]
anyhow = "1"
candle-core = "*"
candle-nn = "*"
candle-transformers = "*"
clap = { version = "4", features = ["derive"] }
hf-hub = { version = "*", default-features = false, features = ["ureq", "rustls-tls"] }
serde_json = "1"
tokenizers = { version = "*", default-features = false, features = ["onig"] }
tokio = { version = "1", features = ["macros", "rt", "rt-multi-thread"] }
