[package]
name = "platform_verifier"
version = "0.1.0"
edition = "2021"
publish = false

[dependencies]
log = "0.4"
rustls = { version = "0.21", default-features = false, features = ["dangerous_configuration"] }
winapi = { version = "0.3", features = ["minwindef", "ntdef", "wincrypt", "winerror"] }
