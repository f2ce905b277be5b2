[package]
name = "hypergrab"
version = "0.1.0"
edition = "2021"
publish = false

[dependencies]
calamine = "0.36"
tokio = { version = "1", default-features = false, features = ["rt", "time"] }
xcap = "0.9"
