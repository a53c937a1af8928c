[package]
name = "tarkov_time"
version = "0.1.0"
edition = "2021"
publish = false

[dependencies]
process_list = "*"
reqwest = { version = "*", default-features = false, features = ["blocking"] }
serde = { version = "*", features = ["derive"] }
serde_json = "*"
tray-item = "*"
