[package]
name = "simxiv"
version = "0.1.0"
edition = "2021"
publish = false

[dependencies]
uuid = { version = "1", features = ["v4"] }
csv = "1"
rand = "0.8"
libmath = "0.2"
serde = { version = "1", features = ["derive"] }
serde_derive = "1"
serde_repr = "0.1"
proc-macro2 = "1"
syn = "2"
quote = "1"
