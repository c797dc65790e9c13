[package]
name = "lb_janitor"
version = "0.1.0"
edition = "2021"
publish = false

[dependencies]
aws-config = { version = "1", default-features = false, features = ["rustls", "rt-tokio"] }
aws-sdk-cloudwatch = { version = "1", default-features = false, features = ["rustls", "rt-tokio"] }
aws-sdk-elasticloadbalancing = { version = "1", default-features = false, features = ["rustls", "rt-tokio"] }
aws-sdk-elasticloadbalancingv2 = { version = "1", default-features = false, features = ["rustls", "rt-tokio"] }
aws-sdk-sts = { version = "1", default-features = false, features = ["rustls", "rt-tokio"] }
aws-smithy-types-convert = { version = "*", features = ["convert-chrono"] }
aws-types = "1"
chrono = "0.4"
clap = { version = "4", features = ["derive"] }
futures = "0.3"
serde = { version = "1", features = ["derive"] }
tokio = { version = "1", features = ["rt-multi-thread", "macros"] }
toml = "*"
tracing = "0.1"
