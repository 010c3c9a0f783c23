[package]
name = "tcp_chat"
version = "0.1.0"
edition = "2021"
publish = false

[dependencies]
blake3 = "1"
itertools = "0.13"
rand_chacha = "0.3"
rand_core = { version = "0.6", features = ["getrandom"] }
uuid = { version = "1", features = ["v4"] }
tonic = "0.12"
prost-types = "0.13"
tokio = { version = "1", features = ["macros", "rt-multi-thread", "sync"] }
tokio-stream = "0.1"
tokio-util = "0.7"
futures = "0.3"
tracing = "0.1"
tracing-subscriber = { version = "0.3", features = ["env-filter"] }
color-eyre = "0.6"
thiserror = "1"
clap = { version = "4", features = ["derive"] }
redis = { version = "0.27", features = ["tokio-comp"] }
diesel = { version = "2", features = ["postgres", "r2d2", "uuid"] }
