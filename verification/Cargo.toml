[package]
name = "manufacturing_cell"
version = "0.1.0"
edition = "2021"
publish = false

[dependencies]
async-trait = "0.1"
chrono = "0.4"
color-eyre = "0.6"
dotenv = "0.15"
futures = "0.3"
google-cloud-iot-jwt = "*"
gpio-cdev = { version = "0.5", features = ["async-tokio"] }
log = "0.4"
paho-mqtt = "0.12"
pretty_env_logger = "0.4"
serde = { version = "1", features = ["derive"] }
serde_json = "1"
tokio = { version = "1", features = ["full"] }

[dev-dependencies]
base64 = "0.13"
