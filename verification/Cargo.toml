[package]
name = "arkiv_sdk"
version = "0.1.0"
edition = "2021"
publish = false

[dependencies]
alloy = { version = "=1.8.3", default-features = false, features = ["std", "signers"] }
alloy-rlp = "=0.3.17"
anyhow = "=1.0.104"
bigdecimal = "=0.4.11"
brotli = "=9.1.1"
bytes = "=1.12.1"
dirs = "=6.0.0"
displaydoc = "=0.2.7"
flate2 = "=1.1.10"
hex = "=0.4.3"
log = "=0.4.35"
reqwest = { version = "=0.12.28", default-features = false, features = ["blocking", "json", "rustls-tls"] }
serde = { version = "=1.0.229", features = ["derive"] }
serde_json = "=1.0.154"
tar = "=0.4.46"
tempfile = "=3.27.0"
thiserror = "=2.0.21"
url = "=2.5.8"

[dev-dependencies]
mime = "0.3"
