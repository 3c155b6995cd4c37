[package]
name = "rpc_harness"
version = "0.1.0"
edition = "2021"
publish = false

[dependencies]
box_stream = "=0.4.0"
futures = "=0.1.31"
muxrpc = "=0.2.0"
secret_stream = "=0.2.0"
serde = "=1.0.229"
sodiumoxide = "=0.0.16"
ssb-common = "=0.3.0"
ssb-keyfile = "=0.4.0"
tokio = "=0.1.22"
tokio-io = "=0.1.13"

[dev-dependencies]
serde_json = "=1.0.154"
