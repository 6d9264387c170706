[package]
name = "rotator"
version = "0.1.0"
edition = "2021"
publish = false

[dependencies]
serde = { version = "1", features = ["derive"] }
serde_json = "1"
rusoto_core = { version = "0.42", default-features = false, features = ["rustls"] }
rusoto_iam = { version = "0.42", default-features = false, features = ["rustls"] }
rusoto_secretsmanager = { version = "0.42", default-features = false, features = ["rustls"] }
lambda_runtime = "0.2"
failure = "0.1"
log = "0.4"
env_logger = "0.7"
lazy_static = "1"
