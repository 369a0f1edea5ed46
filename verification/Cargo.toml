[package]
name = "stickerbomb"
version = "0.1.0"
edition = "2021"
publish = false

[dependencies]
actix-web = { version = "=4.18.1", default-features = false, features = ["macros"] }
anyhow = "=1.0.104"
futures = "=0.3.34"
k8s-openapi = { version = "0.28", features = ["latest"] }
kube = { version = "4", default-features = false, features = ["client", "runtime", "derive"] }
kube-leader-election = "0.44"
opentelemetry = "=0.33.1"
opentelemetry-otlp = { version = "=0.33.1", default-features = false, features = ["grpc-tonic", "trace"] }
opentelemetry-resource-detectors = "=0.13.0"
opentelemetry_sdk = { version = "=0.33.1", features = ["rt-tokio"] }
regorus = "=0.5.0"
schemars = "=1.2.3"
serde = { version = "=1.0.229", features = ["derive"] }
serde_json = "=1.0.154"
serde_yaml = "=0.9.34"
thiserror = "=2.0.21"
tokio = { version = "=1.54.1", features = ["macros", "rt-multi-thread", "sync", "time"] }
tracing = "=0.1.44"
tracing-opentelemetry = "=0.34.0"
tracing-subscriber = { version = "=0.3.23", features = ["env-filter", "json"] }
