[package]
name = "mpris_server"
version = "0.1.0"
edition = "2021"
publish = false

[dependencies]
zbus = "3"
serde = { version = "1", features = ["derive"] }
async-trait = "0.1"
async-channel = "2"
futures-channel = "0.3"
futures-util = "0.3"
enumflags2 = "0.7"
