[package]
name = "traffic_gen"
version = "0.1.0"
edition = "2021"
publish = false

[dependencies]
anyhow = "*"
chrono = "*"
clap = { version = "*", features = ["derive"] }
num-format = "*"
rand = "0.8"
tokio = { version = "*", features = ["full"] }
uuid = { version = "*", features = ["v4"] }
