[package]
name = "make_queue"
version = "0.1.0"
edition = "2021"
publish = false

[dependencies]
async-trait = "0.1"
derivative = "2"
rspack_error = "*"
rspack_sources = "*"
rustc-hash = "1.1"
tokio = { version = "1", default-features = false, features = ["sync"] }
