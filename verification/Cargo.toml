[package]
name = "yew_ethereum_provider"
version = "0.1.0"
edition = "2021"
publish = false

[dependencies]
web3 = { version = "=0.19.0", default-features = false, features = ["eip-1193"] }
serde = { version = "=1.0.229", features = ["derive"] }
serde_json = "=1.0.154"
yew = { version = "=0.21.0", features = ["csr"] }
wasm-bindgen = "=0.2.129"
wasm-bindgen-futures = "=0.4.79"
log = "=0.4.34"
