[package]
name = "mlproof"
version = "0.1.0"
edition = "2021"
publish = false

[dependencies]
anyhow = "1"
bincode = "1.3"
env_logger = "*"
halo2_proofs = "*"
halo2curves = "*"
rand = "0.8"
serde = { version = "1", features = ["derive"] }
zkml = "*"
