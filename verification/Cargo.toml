[package]
name = "hive-client"
version = "0.1.0"
edition = "2021"
publish = false

[dependencies]
aws-cognito-srp = "*"
aws-config = "1"
aws-sdk-cognitoidentityprovider = "1"
chrono = { version = "0.4", features = ["serde"] }
log = "0.4"
reqwest = { version = "0.12", features = ["json"] }
serde = { version = "1", features = ["derive"] }
serde_json = "1"
serde_with = "3"
thiserror = "*"
tokio = { version = "1", features = ["sync"] }
