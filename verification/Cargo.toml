[package]
name = "kafka_backup_operator"
version = "0.1.0"
edition = "2021"
publish = false

[dependencies]
chrono = { version = "=0.4.45", features = ["serde"] }
kube = { version = "=3.1.0", features = ["runtime", "derive", "client"] }
k8s-openapi = { version = "=0.27.1", features = ["latest"] }
serde = { version = "*", features = ["derive"] }
serde_json = "*"
schemars = { version = "*", features = ["chrono04"] }
tokio = { version = "*", features = ["macros", "rt-multi-thread", "signal"] }
futures = "*"
tracing = "*"
tracing-subscriber = { version = "*", features = ["env-filter", "json"] }
axum = "*"
anyhow = "*"
