[package]
name = "sleepypods_control_plane"
version = "0.1.0"
edition = "2021"
publish = false

[dependencies]
serde_json = "1"
serde_yaml = "0.9"
sha2 = "0.10"
bytes = "1"
deadpool-postgres = "0.14"
http-body = "1"
k8s-openapi = { version = "*", features = ["latest"] }
kube = { version = "*", default-features = false, features = ["client", "rustls-tls", "ring"] }
serde = { version = "1", features = ["derive"] }
tokio = { version = "1", features = ["full"] }
tokio-postgres = { version = "0.7", features = ["with-serde_json-1"] }
tonic = { version = "0.14", features = ["transport", "tls-ring"] }
tonic-web = "0.14"
tower = { version = "0.5", features = ["util"] }
tower-http = { version = "0.6", features = ["cors"] }
