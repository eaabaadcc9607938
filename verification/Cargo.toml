[package]
name = "twilio2"
version = "0.1.0"
edition = "2021"
publish = false

[dependencies]
serde = { version = "1", features = ["derive"] }
serde_json = "1"
time = { version = "0.3", features = ["parsing", "formatting", "macros"] }
url = "2"
zeroize = { version = "1", features = ["derive"] }
rust_decimal = "1"
