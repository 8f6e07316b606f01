[package]
name = "jibri_pod_controller"
version = "0.1.0"
edition = "2021"
publish = false

[dependencies]
anyhow = "*"
futures = "*"
hyper = { version = "0.14", features = ["full"] }
k8s-openapi = { version = "*", features = ["latest"] }
kube = "*"
kube-leader-election = "*"
once_cell = "*"
serde_json = "*"
tokio = { version = "1", features = ["full"] }
tracing = "*"
tracing-subscriber = { version = "*", features = ["env-filter"] }
