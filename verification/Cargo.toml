[package]
name = "nftablesbuilder"
version = "0.1.0"
edition = "2021"
publish = false

[dependencies]
hex = "*"
openssl = "*"
serde = { version = "*", features = ["derive"] }
serde_json = "*"
signal-hook = "*"
argon2 = "*"
axum = "*"
axum-server = { version = "*", features = ["tls-rustls"] }
network-interface = "*"
thotp = "*"
time = "*"
tokio = { version = "*", features = ["full"] }
tower-http = { version = "*", features = ["fs"] }
tower-sessions = "*"
walkdir = "*"
