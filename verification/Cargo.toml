[package]
name = "radiation-counter-service"
version = "0.1.0"
edition = "2021"
publish = false

[dependencies]
failure = "0.1"
juniper = "0.14"
log = "0.4"
serde = { version = "1", features = ["derive"] }
