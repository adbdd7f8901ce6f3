[package]
name = "eth_swap"
version = "0.1.0"
edition = "2021"
publish = false

[dependencies]
dotenv = "0.15"
secp256k1 = "0.27"
tokio = { version = "1", features = ["macros", "rt-multi-thread"] }
web3 = { version = "0.19", default-features = false, features = ["signing", "ws-tls-tokio"] }
