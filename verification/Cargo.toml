[package]
name = "taceo-proof-client"
version = "0.1.0"
edition = "2021"
publish = false

[dependencies]
ark-bn254 = "=0.6.0"
ark-bls12-381 = "=0.6.0"
ark-bls12-377 = "=0.6.0"
ark-ec = "=0.6.0"
ark-ff = "=0.6.0"
ark-serialize = "=0.6.0"
base64ct = { version = "=1.8.3", features = ["alloc"] }
bincode = "=1.3.3"
chrono = "=0.4.45"
taceo-circom-types = { version = "=0.3.3", features = ["bls12-381"] }
crypto_box = { version = "=0.9.1", features = ["seal"] }
ed25519-dalek = { version = "=2.2.0", features = ["digest"] }
eyre = "=0.6.14"
futures = "=0.3.34"
intmap = { version = "=3.1.3", features = ["serde"] }
rand = "=0.8.8"
reqwest = { version = "=0.12.28", default-features = false, features = ["json", "multipart"] }
serde = { version = "=1.0.229", features = ["derive"] }
serde_json = "=1.0.154"
serde-wasm-bindgen = "=0.6.5"
sha2 = "=0.10.9"
tokio-tungstenite = "=0.30.0"
tracing = "=0.1.44"
uuid = { version = "=1.29.1", features = ["serde"] }
wasm-bindgen = "=0.2.130"
