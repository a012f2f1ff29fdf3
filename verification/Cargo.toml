[package]
name = "ssm_session"
version = "0.1.4"
edition = "2021"
publish = false

[dependencies]
aws-config = "1"
aws-sdk-ecs = "1"
clap = { version = "4", features = ["derive"] }
env_logger = "*"
log = "0.4"
tokio = { version = "1", features = ["macros", "rt-multi-thread"] }
