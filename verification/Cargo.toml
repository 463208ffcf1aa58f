[package]
name = "dockside"
version = "0.1.0"
edition = "2021"
publish = false

[dependencies]
log = "0.4"
rand = "0.7"
shiplift = { version = "0.6", default-features = false, features = ["unix-socket"] }
tokio = "0.1"

[dev-dependencies]
serde_json = "1"
