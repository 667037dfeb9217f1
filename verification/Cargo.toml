[package]
name = "prometheus_mcp"
version = "0.1.1"
edition = "2021"
publish = false

[dependencies]
serde_json = { version = "=1.0.154", features = ["preserve_order"] }
prometheus = { version = "=0.14.0", default-features = false }
url = "=2.5.8"
reqwest = { version = "=0.12.28", default-features = false, features = ["json"] }
tokio = { version = "=1.54.1", features = ["rt-multi-thread", "macros", "net", "time", "sync"] }
hyper = { version = "=1.12.0", features = ["server", "http1"] }
hyper-util = { version = "=0.1.21", features = ["tokio"] }
http-body-util = "=0.1.5"
bytes = "=1.12.1"
clap = { version = "=4.6.7", features = ["derive", "env"] }
signal-hook = "=0.3.18"
async-trait = "=0.1.92"
