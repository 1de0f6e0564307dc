[package]
name = "pms-7003"
version = "0.1.0"
edition = "2021"

[dependencies]
embedded-hal = "0.2.7"
nb = "1"
scroll = { version = "0.12", default-features = false }
