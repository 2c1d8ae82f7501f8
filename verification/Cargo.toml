[package]
name = "cluster_manager"
version = "0.1.0"
edition = "2021"
publish = false

[dependencies]
sha2 = "0.10"
uuid = { version = "1", features = ["v4"] }
rand = "0.8"
ipnet = "2"
humanize-rs = "0.1"
serde = { version = "1", features = ["derive"] }
serde_json = "1"
kube = { version = "*", features = ["runtime", "derive"] }
k8s-openapi = { version = "*", features = ["latest"] }
tokio = { version = "1", features = ["full"] }
futures = "0.3"
tracing = "0.1"
schemars = "*"
thiserror = "*"
lazy_static = "1"
log = "0.4"
libc = "0.2"
librados-sys = "*"
librbd-sys = "*"
