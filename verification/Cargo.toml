[package]
name = "sui_workers"
version = "0.1.0"
edition = "2021"
publish = false

[dependencies]
clap = { version = "=4.6.7", default-features = false, features = ["std", "help", "usage", "error-context", "derive"] }
ethers = { version = "=2.0.14", default-features = false }
futures = { version = "0.3", default-features = false, features = ["std"] }
hyper = { version = "=0.14.32", default-features = false }
prometheus = { version = "=0.13.4", default-features = false }
rustc-hex = "=2.1.0"
tokio = { version = "=1.54.1", default-features = false, features = ["rt", "time"] }
tracing = { version = "0.1", features = ["log"] }
url = "=2.5.8"
