[package]
name = "pvf_host"
version = "0.1.0"
edition = "2021"
publish = false

[dependencies]
http = "=0.2.12"
parity-scale-codec = { version = "=3.7.5", features = ["derive"] }
thiserror = "=1.0.69"
jsonrpsee = { version = "=0.22.5", features = ["server"] }
hyper = { version = "=0.14.32", features = ["server", "tcp", "http1", "http2"] }
tokio = { version = "=1.54.1", features = ["net", "rt-multi-thread"] }
tower = { version = "=0.4.13", features = ["util"] }
tower-http = { version = "=0.4.4", features = ["cors"] }
serde_json = "=1.0.154"
log = "=0.4.34"

[dev-dependencies]
sp-weights = "*"
