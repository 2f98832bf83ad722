[package]
name = "diazene"
version = "0.1.0"
edition = "2021"
publish = false

[dependencies]
async-trait = "=0.1.92"
serde = "=1.0.229"
thiserror = "=1.0.69"
time = "=0.3.55"
tokio = { version = "=1.54.1", default-features = false, features = ["rt", "rt-multi-thread", "sync"] }
tracing = "=0.1.44"

[dev-dependencies]
uuid = { version = "=1.29.0", features = ["v4"] }
