[package]
name = "obcrypt"
version = "1.0.0"
edition = "2021"
publish = false

[dependencies]
aead = { version = "0.5", features = ["alloc"] }
aes-siv = "0.7"
aes-gcm-siv = "0.11"
hkdf = "0.12"
sha2 = "0.10"
rand = "0.8"
hex = "0.4"
zeroize = "1"
thiserror = "1"
wasm-bindgen = "0.2"
