[package]
name = "speech_pipeline"
version = "0.1.0"
edition = "2021"
publish = false

[dependencies]
anyhow = "1"
byteorder = "1"
candle-core = "=0.8.4"
candle-nn = "=0.8.4"
candle-transformers = "=0.8.4"
clap = { version = "4.5", features = ["derive"] }
crossterm = "=0.28.1"
hf-hub = "=0.3.2"
hound = "=3.5.1"
rand = "=0.8.8"
serde = { version = "1", features = ["derive"] }
serde_json = "1"
tokenizers = { version = "=0.21.4", default-features = false, features = ["onig"] }
