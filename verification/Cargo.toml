[package]
name = "solar_panel_sim"
version = "0.1.0"
edition = "2021"
publish = false

[dependencies]
uuid = { version = "=1.27.0", features = ["v4"] }
chrono = "=0.4.45"
serde = { version = "=1.0.229", features = ["derive"] }
serde_json = "=1.0.151"
tokio = { version = "=1.53.2", features = ["full"] }
axum = { version = "=0.8.9", features = ["ws"] }
reqwest = { version = "=0.13.5", default-features = false, features = ["json"] }
rumqttc = "=0.25.1"
tokio-modbus = { version = "=0.17.0", features = ["tcp-server"] }
futures-util = "=0.3.34"
