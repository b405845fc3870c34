[package]
name = "recess"
version = "0.1.0"
edition = "2021"
publish = false

[dependencies]
serde = { version = "1", features = ["derive"] }
serde_json = "1"
hyper = "0.12"
hyper-tls = "0.3"
futures = "0.1"
tokio = "0.1"
structopt = "0.2"
clap = "2"
failure = "0.1"
