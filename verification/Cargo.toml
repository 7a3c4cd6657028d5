[package]
name = "sonor"
version = "0.1.0"
edition = "2021"
publish = false

[dependencies]
rupnp = "*"
tokio = { version = "*", features = ["rt-multi-thread", "sync", "time", "macros"] }
futures-util = "*"
http = "*"
log = "*"
roxmltree = "*"
urlencoding = "*"
xml-rs = "*"
fastrand = "*"
thiserror = "*"
tokio-stream = { version = "*", features = ["sync"] }
