[package]
name = "shippingbridge"
version = "0.1.0"
edition = "2021"

[dependencies]
rand = "=0.8.8"
anyhow = "1"
tokio = { version = "1", features = ["rt-multi-thread", "macros", "net", "sync"] }
hyper = { version = "1", features = ["server", "http1", "http2"] }
hyper-util = { version = "0.1", features = ["tokio", "server", "server-auto"] }
wasmtime = "=47.0.4"
wasmtime-wasi = "=47.0.4"
wasmtime-wasi-http = "=47.0.4"
