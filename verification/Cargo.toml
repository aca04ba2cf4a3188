[package]
name = "gossipsub_baseline_bench"
version = "0.1.0"
edition = "2021"
publish = false

[dependencies]
comp-cat-rs = "=0.5.1"
futures = "=0.3.34"
libp2p-core = "=0.43.2"
libp2p-gossipsub = "=0.49.5"
libp2p-identity = { version = "=0.2.14", features = ["ed25519"] }
libp2p-plaintext = "=0.43.0"
libp2p-swarm = { version = "=0.47.1", features = ["tokio"] }
libp2p-yamux = "=0.47.0"
rand = "=0.8.8"
rand_chacha = "=0.3.1"
tokio = { version = "=1.54.1", features = ["rt-multi-thread", "time", "macros"] }
