[package]
name = "zebra_headers"
version = "0.1.0"
edition = "2021"
publish = false

[dependencies]
chrono = "*"
equihash = "*"
hex = "*"
serde = { version = "*", features = ["derive"] }
sha2 = "*"
sled = "*"
tokio = { version = "*", features = ["rt-multi-thread", "sync", "time", "macros"] }
