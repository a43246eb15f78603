[package]
name = "storage_router"
version = "0.1.0"
edition = "2021"
publish = false

[dependencies]
url = "=2.5.8"
serde_json = "=1.0.154"
lambda_http = "=1.3.2"
aws-config = "=1.12.0"
aws-sdk-dynamodb = "=1.131.0"
aws-sdk-s3 = "=1.152.0"
aws-types = "~1.6"
tracing = "=0.1.44"
