[package]
name = "dynamodb_tools"
version = "0.1.0"
edition = "2021"
publish = false

[dependencies]
xid = "*"
aws-config = "*"
aws-sdk-dynamodb = "*"
serde = { version = "*", features = ["derive"] }
serde_yml = "*"
serde_json = "*"
serde_dynamo = { version = "*", features = ["aws-sdk-dynamodb+1"] }
tokio = { version = "*", features = ["rt-multi-thread"] }
thiserror = "*"
