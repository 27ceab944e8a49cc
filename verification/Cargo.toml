[package]
name = "recurring_payments"
version = "0.1.0"
edition = "2021"
publish = false

[dependencies]
dcap-qvl = { version = "=0.6.5", default-features = false, features = ["std", "rustcrypto", "default-x509"] }
hex = "=0.4.3"
serde_json = "=1.0.151"
