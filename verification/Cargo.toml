[package]
name = "service_manager"
version = "0.1.0"
edition = "2021"
publish = false

[dependencies]
serde_json = "*"
serde = { version = "*", features = ["derive"] }
serde_yaml = "*"
tokio = { version = "*", features = ["full"] }
axum = "*"
tower-http = { version = "*", features = ["cors"] }
tokio-tungstenite = "*"
futures-util = "*"
ssh2 = "*"
paho-mqtt = "*"
dotenv = "*"
once_cell = "*"
tracing = "*"
tracing-subscriber = "*"
thiserror = "*"
