[package]
name = "yak_mania"
version = "0.1.0"
edition = "2021"
publish = false

[dependencies]
rand = "0.9"
lambda-appsync = "*"
uuid = { version = "1", features = ["v4"] }
serde = { version = "1", features = ["derive"] }
serde_json = "1"
dynamodb-facade = "*"
aws-sdk-dynamodb = "*"
aws-config = { version = "*", features = ["behavior-version-latest"] }
serde_dynamo = { version = "*", features = ["aws-sdk-dynamodb+1"] }
tracing = "0.1"
tracing-subscriber = { version = "0.3", features = ["json", "env-filter"] }
awssdk-instrumentation = "*"
aws_lambda_events = "*"
lambda_runtime = "*"
tokio = { version = "1", features = ["full"] }
reqwest = { version = "0.12", default-features = false, features = ["json", "rustls-tls"] }
tokio-tungstenite = { version = "*", features = ["rustls-tls-webpki-roots"] }
futures-util = "0.3"
url = "2"
base64 = "0.22"
clap = { version = "4", features = ["derive"] }
env_logger = "0.11"
log = "0.4"
rustls = { version = "0.23", features = ["ring"] }
