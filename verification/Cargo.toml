[package]
name = "ruuvi2mqtt"
version = "0.1.0"
edition = "2021"
publish = false

[dependencies]
anyhow = "*"
btleplug = "*"
clap = { version = "*", features = ["derive", "env"] }
env_logger = "*"
futures = "*"
log = "*"
rand = "*"
rumqttc = "*"
ruuvi-sensor-protocol = "*"
serde = { version = "*", features = ["derive"] }
serde_json = "*"
serde_with = "*"
serde_yaml = "*"
sysinfo = "*"
tokio = { version = "*", features = ["full"] }
