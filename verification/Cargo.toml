[package]
name = "oauth_login"
version = "0.1.0"
edition = "2021"
publish = false

[dependencies]
anyhow = "1"
futures = "0.3"
hyper = { version = "0.14", features = ["server", "tcp", "http1"] }
oauth2 = "4"
tokio = { version = "1", features = ["rt-multi-thread", "sync", "time"] }
url = "2"
