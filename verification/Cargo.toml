[package]
name = "quickgc"
version = "0.1.0"
edition = "2021"
publish = false

[dependencies]
colored = "2"
dirs = "*"
inquire = { version = "*", features = ["editor"] }
regex = "1"
serde = { version = "1", features = ["derive"] }
serde_json = "1"
tokio = { version = "1", features = ["io-util", "macros", "process", "rt-multi-thread"] }
