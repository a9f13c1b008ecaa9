[package]
name = "graph_oauth"
version = "0.1.0"
edition = "2021"
publish = false

[dependencies]
url = "2"
uuid = { version = "1", features = ["v4"] }
ring = "0.17"
base64 = "0.21"
serde = { version = "1", features = ["derive"] }
serde_urlencoded = "0.7"
reqwest = { version = "0.11", default-features = false, features = ["blocking", "native-tls"] }
anyhow = "1"
async-trait = "0.1"
