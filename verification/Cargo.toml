[package]
name = "lava-operator"
version = "0.1.0"
edition = "2021"
publish = false

[dependencies]
futures = "=0.3.34"
indexmap = { version = "=2.14.2", features = ["serde"] }
k8s-openapi = { version = "=0.24.0", features = ["latest"] }
kube = { version = "=0.98.0", features = ["runtime", "derive"] }
lava-anomaly = "=0.1.4"
lava-arch = "=0.1.6"
lava-dependency = "=0.1.5"
lava-drift = "=0.1.3"
lava-outcome-chain = "=0.1.2"
lava-viggy = "=0.1.6"
magma-lava = "=0.2.7"
schemars = "=0.8.22"
serde = { version = "=1.0.229", features = ["derive"] }
serde_json = "=1.0.154"
serde_yaml = "=0.9.34"
thiserror = "=2.0.21"
tokio = { version = "=1.54.1", features = ["macros", "rt-multi-thread"] }
tracing = "=0.1.44"
tracing-subscriber = { version = "=0.3.23", features = ["env-filter"] }
