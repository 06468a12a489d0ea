[package]
name = "netidx_bridge"
version = "0.1.0"
edition = "2021"
publish = false

[dependencies]
netidx-core = { version = "*", default-features = false }
futures = { version = "*", default-features = false, features = ["std"] }
tokio = { version = "*", default-features = false, features = ["rt"] }
serde_json = "*"
fxhash = "*"
napi = { version = "=2.16.13", default-features = false, features = ["napi6"] }
napi-derive = "=2.16.13"
