[package]
name = "whitelist_client"
version = "0.1.0"
edition = "2021"
publish = false

[dependencies]
web3 = { version = "0.19", default-features = false, features = ["http", "signing"] }
secp256k1 = "0.27"
reqwest = { version = "0.11", default-features = false, features = ["cookies", "json"] }
tokio = { version = "1", features = ["macros", "rt-multi-thread"] }
serde = { version = "1", features = ["derive"] }
serde_derive = "1"
serde_json = "1"
structopt = "0.3"
strum = "0.24"
strum_macros = "0.24"
promptly = "0.3"
anyhow = "1"
csv = "1"
