[package]
name = "lightning_sign"
version = "0.1.0"
edition = "2021"
publish = false

[dependencies]
bitcoin = "=0.32.102"
musig2 = "=0.1.2"
criterion = { version = "0.5", default-features = false }
