[package]
name = "mirrord_core"
version = "0.1.0"
edition = "2021"
publish = false

[dependencies]
bytes = "1"
semver = "1"
tokio = { version = "1", features = ["fs", "io-util", "macros", "net", "rt", "rt-multi-thread", "sync", "time"] }
tokio-util = { version = "0.7", features = ["codec"] }
futures = "0.3"
ractor = "*"
hickory-resolver = { version = "*", features = ["system-config", "tokio"] }
k8s-openapi = { version = "*", features = ["latest"] }
kube = { version = "*", default-features = false, features = ["client", "runtime"] }
serde = { version = "1", features = ["derive"] }
serde_json = "1"
schemars = "*"
socket2 = "*"
nix = { version = "0.29", features = ["event", "fs", "poll", "resource", "socket", "uio"] }
libseccomp = "*"
clap = { version = "4", features = ["derive"] }
thiserror = "2"
tracing = "0.1"
tracing-subscriber = { version = "0.3", features = ["env-filter", "json"] }
drain = "*"
actix-codec = "*"
