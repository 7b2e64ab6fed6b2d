[package]
name = "byteflow"
version = "0.1.0"
edition = "2021"
publish = false

[dependencies]
bincode = "2.0.1"
tokio = { version = "1", features = ["io-util", "macros", "net", "rt", "rt-multi-thread", "sync"] }
