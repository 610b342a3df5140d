[package]
name = "recipe_pipeline"
version = "0.1.0"
edition = "2021"
publish = false

[dependencies]
aws-config = "1"
aws-sdk-dynamodb = "1"
aws-sdk-s3 = "1"
aws-sdk-sns = "1"
aws-sdk-sqs = "1"
aws-types = "~1.6"
aws_lambda_events = "1"
base64 = "=0.21.7"
futures-util = "0.3"
lambda_http = "1"
lambda_runtime = "1"
openai-api-rs = "=0.1.15"
reqwest = { version = "0.11", default-features = false, features = ["json", "multipart", "stream", "rustls-tls"] }
scraper = "=0.29.0"
serde = { version = "1", features = ["derive"] }
serde_json = "1"
tokio = { version = "1", features = ["full"] }
tokio-util = { version = "0.7", features = ["codec"] }
uuid = { version = "=1.29.0", features = ["v4"] }
