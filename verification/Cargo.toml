[package]
name = "bookwatch"
version = "0.1.0"
edition = "2021"
publish = false

[dependencies]
anyhow = "*"
futures = "*"
k8s-openapi = { version = "*", features = ["latest"] }
kube = "*"
log = "*"
serde = "*"
serde_derive = "*"
serde_json = "*"
simple_logger = "*"
tokio = { version = "*", features = ["macros", "rt-multi-thread"] }
