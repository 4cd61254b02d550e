[package]
name = "talpid_core"
version = "0.1.0"
edition = "2021"
publish = false

[dependencies]
base64 = "0.22"
x25519-dalek = { version = "2", features = ["static_secrets", "getrandom", "zeroize"] }
zeroize = "1"
chrono = "0.4"
itertools = "*"
ipnetwork = "*"
shadowsocks = "1"
http = "1"
hyper = "1"
hyper-util = { version = "0.1", features = ["client", "client-legacy", "tokio"] }
tower = "0.5"
tokio = { version = "1", features = ["rt", "rt-multi-thread", "net", "time", "fs", "io-util", "sync"] }
tokio-socks = "0.5"
futures = "0.3"
serde = { version = "1", features = ["derive"] }
serde_json = "1"
clap = { version = "4", features = ["derive"] }
anyhow = "1"
log = "0.4"
thiserror = "*"
socket2 = "*"
async-trait = "0.1"
tarpc = { version = "*", features = ["tokio1"] }
