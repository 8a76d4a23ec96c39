[package]
name = "vault_rpg"
version = "0.1.0"
edition = "2021"
publish = false

[dependencies]
aes-gcm = "0.10"
base64 = "0.22"
clap = { version = "4", features = ["derive"] }
pbkdf2 = "0.12"
rand = "0.8"
sha2 = "0.10"
totp-rs = { version = "5", features = ["otpauth", "qr"] }
