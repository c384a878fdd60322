[package]
name = "clipstash"
version = "0.1.0"
edition = "2021"
publish = false

[dependencies]
chrono = "0.4"
crossbeam-channel = "0.5"
parking_lot = "0.12"
rand = "0.8"
uuid = { version = "1", features = ["v4"] }
