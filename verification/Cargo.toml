[package]
name = "deso_client"
version = "0.1.0"
edition = "2021"
publish = false

[dependencies]
hex = "*"
secp256k1 = "*"
bitcoin_hashes = "*"
serde = { version = "*", features = ["derive"] }
serde_json = "*"
reqwest = { version = "*", features = ["json"] }
thiserror = "*"
