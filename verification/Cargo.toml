[package]
name = "ethereum_gravity"
version = "0.1.0"
edition = "2021"
publish = false

[dependencies]
ethers = { version = "=2.0.14", default-features = false, features = ["etherscan"] }
abscissa_core = "=0.6.0"
bip32 = "=0.5.3"
k256 = { version = "=0.13.4", features = ["pkcs8"] }
rpassword = "=5.0.1"
toml = "=0.5.11"
serde = { version = "=1.0.229", features = ["derive"] }
