[package]
name = "eth_gateway"
version = "0.1.0"
edition = "2021"
publish = false

[dependencies]
axum = "*"
dotenv = "*"
ethers-contract = { version = "*", features = ["abigen"] }
ethers-core = "*"
ethers-providers = "*"
tokio = { version = "*", features = ["macros", "rt-multi-thread", "net"] }
tower-http = { version = "*", features = ["cors"] }
