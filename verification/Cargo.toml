[package]
name = "daily_schedule"
version = "0.1.0"
edition = "2021"
publish = false

[dependencies]
chrono = { version = "0.4", default-features = false, features = ["std"] }
num-traits = "0.2"
rand = "0.8"
