[package]
name = "imageprep"
version = "0.1.0"
edition = "2021"
publish = false

[dependencies]
uuid = { version = "1", features = ["v4"] }
tokio = { version = "1", features = ["rt", "rt-multi-thread", "macros", "fs"] }
toml = "0.8"
serde = { version = "1", features = ["derive"] }
