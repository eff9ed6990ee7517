[package]
name = "meslin"
version = "0.1.0"
edition = "2021"
publish = false

[dependencies]
async-priority-channel = "=0.2.0"
async-broadcast = "=0.7.2"
tokio = { version = "=1.54.1", default-features = false, features = ["sync"] }
futures = { version = "=0.3.34", features = ["executor"] }
oneshot = "=0.1.13"
thiserror = "=1.0.69"
