[package]
name = "rbatis"
version = "0.1.0"
edition = "2021"
publish = false

[dependencies]
flume = "*"
chrono = "0.4"
serde = { version = "1", features = ["derive"] }
serde_json = "1"
log = "0.4"
proc-macro2 = "1"
quote = "1"
syn = { version = "1", features = ["full"] }
