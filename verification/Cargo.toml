[package]
name = "threema_gateway_bot"
version = "0.1.0"
edition = "2021"
publish = false

[dependencies]
async-trait = "*"
chrono = "*"
threema-gateway = "*"
