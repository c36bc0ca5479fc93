[package]
name = "pappap_node"
version = "0.3.0"
edition = "2021"
publish = false

[dependencies]
pqcrypto-kyber = "0.8"
pqcrypto-traits = "0.3"
chacha20poly1305 = "0.10"
rand = "0.8"
rand_chacha = "0.3"
zeroize = "1"
base64 = "0.21"
chrono = "0.4"
num_cpus = "1"
sys-info = "0.9"
serde = { version = "1", features = ["derive"] }
serde_json = "1"
tokio = { version = "1", features = ["full"] }
tracing = "0.1"
tracing-subscriber = { version = "0.3", default-features = false, features = ["fmt", "std"] }
config = { version = "0.13", default-features = false }
libp2p = { version = "0.52", features = ["tokio", "tcp", "noise", "yamux", "gossipsub", "kad", "mdns", "ping", "macros"] }
actix-web = { version = "4", default-features = false, features = ["macros"] }
