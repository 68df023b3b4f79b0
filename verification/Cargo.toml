[package]
name = "dotenv-cloud-provider-aws"
version = "0.1.0"
edition = "2021"
publish = false

[dependencies]
serde = { version = "=1.0.229", features = ["derive"] }
serde_json = "=1.0.154"
base64 = "=0.23.1"
tokio = { version = "=1.54.1", features = ["macros", "rt-multi-thread", "sync"] }
aws-config = { version = "=1.13.0", features = ["behavior-version-latest"] }
aws-sdk-secretsmanager = "=1.125.0"
aws-sdk-ssm = "=1.133.0"
aws-smithy-runtime-api = "=1.19.2"
aws-smithy-types = "=1.9.1"
