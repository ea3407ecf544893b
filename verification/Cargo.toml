[package]
name = "dndtrigger"
version = "0.1.0"
edition = "2021"
publish = false

[dependencies]
clap = "*"
plist = "*"
serde = { version = "*", features = ["derive"] }
service-manager = "*"
tokio = { version = "*", default-features = false, features = ["rt-multi-thread", "process", "io-util"] }
