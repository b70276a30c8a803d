[package]
name = "drafting_core"
version = "0.1.0"
edition = "2021"
publish = false

[dependencies]
dioxus = "=0.6.3"
rfd = "0.14"
serde = { version = "=1.0.229", features = ["derive"] }
serde_json = "=1.0.154"
