[package]
name = "biomon"
version = "0.1.0"
edition = "2021"
publish = false

[dependencies]
btleplug = "*"
chrono = "*"
fern = "*"
futures = "*"
ini = "*"
log = "*"
rusqlite = { version = "*", features = ["backup", "bundled"] }
tokio = { version = "*", features = ["macros", "rt-multi-thread", "time"] }
