[package]
name = "smo_server"
version = "0.1.0"
edition = "2021"
publish = false

[dependencies]
hex = "*"
serde_json = "*"
nalgebra = "*"
tokio = { version = "*", features = ["rt-multi-thread", "net", "sync", "io-util", "time", "macros"] }
clap = { version = "*", features = ["derive"] }
