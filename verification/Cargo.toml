[package]
name = "finniko"
version = "0.1.0"
edition = "2021"
publish = false

[dependencies]
bresenham = "*"
noise = "*"
rand = "0.8"
uuid = { version = "1", features = ["v4"] }
