[package]
name = "status_broadcast"
version = "0.1.0"
edition = "2021"
publish = false

[dependencies]
axum = { version = "=0.6.20", features = ["ws"] }
chrono = "=0.4.45"
futures = "=0.3.34"
hyper = { version = "=0.14.32", features = ["client", "http1", "http2", "tcp"] }
hyper-tls = "=0.5.0"
serde_json = "=1.0.154"
shuttle-axum = "0.30"
shuttle-runtime = "0.30"
shuttle-static-folder = "=0.28.0"
tokio = { version = "=1.54.1", features = ["macros", "rt-multi-thread", "sync", "time"] }
tower-http = { version = "=0.3.5", features = ["fs"] }
