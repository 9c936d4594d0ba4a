[package]
name = "fp_vault"
version = "0.1.0"
edition = "2021"
publish = false

[dependencies]
aes-gcm = "0.10"
argon2 = "0.5"
base64 = "0.22"
rand = "0.8"
rand_core = { version = "0.6", features = ["getrandom"] }
rust-crypto = "0.2"
crossterm = "0.27"
rpassword = "7"
clipboard = "0.5"

[dev-dependencies]
serde_json = "1"
