[package]
name = "grin_gui"
version = "0.1.0"
edition = "2021"
publish = false

[dependencies]
anyhow = "1.0"
iced = "0.4"
iced_native = "0.5"
image = { version = "0.24", default-features = false, features = ["ico"] }
log = "0.4"
uuid = { version = "1", features = ["v4"] }
