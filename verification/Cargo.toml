[package]
name = "s33d"
version = "0.1.0"
edition = "2021"
publish = false

[dependencies]
bip39 = { version = "2", features = ["all-languages"] }
bitcoin_hashes = "*"
rand = "0.8"
hex = "*"
zeroize = "*"
clap = { version = "4", features = ["derive"] }
qrcode = "*"
rpassword = "*"
unicode-width = "*"
