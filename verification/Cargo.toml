[package]
name = "babyplonk"
version = "0.1.0"
edition = "2021"
publish = false

[dependencies]
ark-std = "0.4"
ark-ff = "0.4"
ark-ec = "0.4"
ark-bn254 = "0.4"
serde_json = "1"
anyhow = "1"
