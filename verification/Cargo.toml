[package]
name = "statechain_client"
version = "0.1.0"
edition = "2021"
publish = false

[dependencies]
bitcoin = "0.32"
secp256k1-zkp = "*"
secp256k1 = "*"
hex = "0.4"
rand = "0.8"
serde = { version = "1", features = ["derive"] }
serde_json = "1"
uuid = { version = "1", features = ["v4"] }
clap = { version = "4", features = ["derive"] }
tokio = { version = "1", features = ["macros", "rt"] }
reqwest = { version = "0.11", default-features = false, features = ["json"] }
sqlx = { version = "0.8", default-features = false, features = ["runtime-tokio", "sqlite"] }
electrum-client = "*"
