[package]
name = "identicon-core"
version = "0.1.0"
edition = "2021"
publish = false

[dependencies]
blake3 = "1"
rand_xoshiro = "0.6"
axum = "0.8"
tokio = { version = "1", features = ["macros", "rt-multi-thread", "net"] }
tower-http = { version = "0.6", features = ["trace"] }
tracing = "0.1"
tracing-subscriber = { version = "0.3", features = ["env-filter", "json"] }
serde = { version = "1", features = ["derive"] }
serde_json = "1"
prometheus = "0.13"
smallvec = "1"
wasm-bindgen = "0.2"
