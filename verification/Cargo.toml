[package]
name = "motor_control"
version = "0.1.0"
edition = "2021"
publish = false

[dependencies]
micromath = "*"
num = { version = "*", default-features = false }

[dev-dependencies]
float-cmp = "*"
