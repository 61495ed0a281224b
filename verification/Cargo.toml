[package]
name = "ksz8851snl"
version = "0.1.0"
edition = "2021"
publish = false

[dependencies]
embedded-hal = "1.0"
embedded-hal-async = "1.0"
embassy-futures = "*"
embassy-time = "*"
embassy-net-driver-channel = "*"
bondrewd = { version = "*", features = ["derive"] }
embedded-registers = "*"
bytemuck = "*"
