[package]
name = "rpc_servers"
version = "0.1.0"
edition = "2021"
publish = false

[dependencies]
jsonrpsee = { version = "=0.16.3", features = ["server"] }
http = "=0.2.12"
tower = "=0.4.13"
tower-http = { version = "=0.3.5", features = ["cors"] }
tokio = { version = "=1.54.1", features = ["rt-multi-thread"] }
serde = { version = "=1.0.229", features = ["derive"] }
serde_json = "=1.0.154"
log = "=0.4.34"
clap = { version = "=4.6.7", features = ["derive"] }
parity-scale-codec = { version = "=3.7.5", features = ["derive"] }
sp-weights = "=37.0.0"

[dev-dependencies]
hyper = "=0.14.32"
