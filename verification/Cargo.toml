[package]
name = "probelet_operator"
version = "0.1.0"
edition = "2021"
publish = false

[dependencies]
chrono = "*"
serde_json = "*"
k8s-openapi = { version = "=0.27.1", features = ["latest"] }
kube = { version = "*", default-features = false, features = ["client", "runtime", "derive"] }
serde = { version = "*", features = ["derive"] }
schemars = "*"
serde_yaml = "*"
snafu = "*"
futures = "*"
tokio = { version = "*", features = ["macros", "rt-multi-thread", "signal", "net"] }
axum = "*"
axum-extra = { version = "*", features = ["typed-routing"] }
tracing = "*"
prometheus-client = "*"
opentelemetry = "*"
