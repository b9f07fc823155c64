[package]
name = "vrp8"
version = "0.1.0"
edition = "2021"
publish = false

[dependencies]
uuid = "1"
ctrlc = "3"
timer = "0.2"
chrono = "0.4"
process-memory = "*"
caps = "*"
thiserror = "*"
openxr = { version = "*", default-features = false, features = ["loaded"] }
