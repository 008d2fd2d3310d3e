[package]
name = "fitbit_hr"
version = "0.1.0"
edition = "2021"
publish = false

[dependencies]
chrono = "=0.4.45"
lambda_runtime = "=0.4.1"
oauth2 = "=4.4.2"
reqwest = { version = "=0.11.27", default-features = false, features = ["blocking", "rustls-tls"] }
rusoto_core = { version = "=0.47.0", default-features = false, features = ["rustls"] }
rusoto_s3 = { version = "=0.47.0", default-features = false, features = ["rustls"] }
rusoto_secretsmanager = { version = "=0.47.0", default-features = false, features = ["rustls"] }
serde = { version = "=1.0.229", features = ["derive"] }
serde_json = "=1.0.154"
tokio = { version = "=1.54.1", features = ["rt-multi-thread", "io-util"] }
