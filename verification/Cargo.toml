[package]
name = "password_manager"
version = "0.1.0"
edition = "2021"
publish = false

[dependencies]
card-validate = "2"
chrono = "0.4"
passwords = { version = "3", features = ["common-password"] }
reqwest = "0.12"
rusqlite = { version = "*", features = ["bundled-sqlcipher", "chrono"] }
secrecy = { version = "0.10", features = ["serde"] }
serde = { version = "1", features = ["derive"] }
serde_json = "1"
sha1 = "0.10"
ssh2 = "0.9"
tokio = { version = "1", features = ["sync", "rt", "macros"] }
totp-rs = { version = "5", features = ["otpauth"] }
validator = { version = "0.16", features = ["phone"] }
zeroize = "1"
