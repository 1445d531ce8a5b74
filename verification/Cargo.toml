[package]
name = "queue_controller"
version = "0.1.0"
edition = "2021"
publish = false

[dependencies]
futures = "*"
k8s-openapi = { version = "*", features = ["latest"] }
kube = { version = "*", features = ["runtime", "derive"] }
schemars = "*"
serde = { version = "*", features = ["derive"] }
serde_json = "*"
thiserror = "*"
tokio = { version = "*", features = ["macros", "rt-multi-thread"] }
