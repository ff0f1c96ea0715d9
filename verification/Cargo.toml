[package]
name = "dfembed"
version = "0.1.0"
edition = "2021"
publish = false

[dependencies]
anyhow = "*"
crossbeam = "*"
rayon = "*"
tokio = { version = "*", features = ["rt", "rt-multi-thread"] }
tracing = "*"
tracing-subscriber = "*"

[dev-dependencies]
tempfile = "*"
