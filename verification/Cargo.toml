[package]
name = "embassy_mock"
version = "0.1.0"
edition = "2021"
publish = false

[dependencies]
embassy-executor = "*"
embassy-time = "*"
embassy-futures = "*"
snafu = "*"
