[package]
name = "ephemera"
version = "0.1.0"
edition = "2021"
publish = false

[dependencies]
anyhow = "=1.0.104"
async-trait = "=0.1.92"
clap = { version = "=4.6.7", features = ["derive"] }
config = { version = "=0.13.4", default-features = false, features = ["toml"] }
dirs = "=5.0.1"
futures = "=0.3.34"
libp2p = { version = "=0.55.0", features = ["gossipsub", "macros", "noise", "request-response", "tcp", "yamux"] }
libp2p-identity = { version = "=0.2.14", features = ["ed25519", "peerid", "rand"] }
libp2p-swarm = { version = "=0.46.0", features = ["macros", "tokio"] }
libp2p-tcp = { version = "=0.43.0", features = ["tokio"] }
log = "=0.4.34"
lru = "=0.19.0"
prost-types = "=0.14.4"
reqwest = { version = "0.11", default-features = false }
rocksdb = "*"
rusqlite = { version = "=0.40.2", features = ["bundled"] }
serde = { version = "=1.0.229", features = ["derive"] }
serde_json = "=1.0.154"
thiserror = "=1.0.69"
tokio = { version = "=1.54.1", features = ["full"] }
toml = "1.1"
unsigned-varint = "=0.8.0"
