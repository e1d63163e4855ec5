[package]
name = "pchat"
version = "0.1.0"
edition = "2021"
publish = false

[dependencies]
libp2p = { version = "0.55", features = ["gossipsub", "mdns", "async-std", "tcp", "noise", "yamux", "macros", "quic", "tokio"] }
libp2p-quic = { version = "0.12", features = ["tokio"] }
libp2p-swarm = "0.46"
libp2p-swarm-derive = "0.35"
idgenerator = "=2.0.0"
async-std = { version = "1", features = ["attributes"] }
futures = "0.3"
tokio = { version = "1", features = ["macros", "rt-multi-thread"] }
