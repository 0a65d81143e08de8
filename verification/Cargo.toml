[package]
name = "guest_udf"
version = "0.1.0"
edition = "2021"
publish = false

[dependencies]
anyhow = "1"
rmp-serde = "1"
rmpv = { version = "1", features = ["with-serde"] }
serde = "1"
