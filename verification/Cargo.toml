[package]
name = "mag_runtime"
version = "0.1.0"
edition = "2021"
publish = false

[dependencies]
magc = "*"
uuid = { version = "*", features = ["v4"] }
