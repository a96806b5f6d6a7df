[package]
name = "newsfeed"
version = "0.1.0"
edition = "2021"
publish = false

[dependencies]
chrono = { version = "=0.4.45", default-features = false, features = ["alloc"] }
serde = { version = "=1.0.229", features = ["derive"] }
serde_json = "=1.0.154"
rustc-hash = "=2.1.3"
log = "=0.4.35"
tokio = { version = "=1.54.1", default-features = false, features = ["time", "net", "rt"] }
fastwebsockets = { version = "=0.10.0", features = ["upgrade"] }
hyper = { version = "=1.12.0", features = ["client", "http1"] }
hyper-util = { version = "=0.1.21", features = ["tokio"] }
reqwest = { version = "=0.12.28", default-features = false, features = ["json"] }
iced_futures = { version = "=0.14.0", default-features = false }
iced = { version = "=0.14.0", default-features = false, features = ["x11", "tiny-skia", "tokio"] }
