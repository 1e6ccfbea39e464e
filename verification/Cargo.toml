[package]
name = "agentenv"
version = "0.1.0"
edition = "2021"
publish = false

[dependencies]
anyhow = "1"
async-trait = "0.1"
futures = "0.3"
hyper = "1"
io-uring = "*"
libc = "0.2"
netlink-packet-route = "*"
nix = { version = "*", features = ["mount", "sched", "signal", "process", "fs"] }
rtnetlink = "*"
serde = { version = "1", features = ["derive"] }
serde_json = { version = "1", features = ["raw_value"] }
tempfile = "3"
tokio = { version = "1", features = ["full"] }
tracing = "0.1"
uuid = { version = "1", features = ["v7"] }
