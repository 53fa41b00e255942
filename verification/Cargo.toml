[package]
name = "wapo"
version = "0.1.0"
edition = "2021"
publish = false

[dependencies]
anyhow = "1"
clap = { version = "4", features = ["derive"] }
hex = "0.4"
parity-scale-codec = "3"
phala-allocator = "*"
phala-rocket-middleware = "*"
pink-types = "*"
rocket = "0.5"
rocket_cors = "0.6"
tokio = { version = "1", features = ["fs", "macros", "rt-multi-thread"] }
tracing = "0.1"
tracing-subscriber = "0.3"
