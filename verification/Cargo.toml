[package]
name = "hms2mqtt"
version = "0.1.0"
edition = "2021"
publish = false

[dependencies]
anyhow = "*"
bytes = "*"
chrono = "*"
clap = { version = "*", features = ["derive"] }
crc16 = "*"
log = "*"
rand = "*"
rumqttc = "*"
rustls-native-certs = "*"
serde = { version = "*", features = ["derive"] }
serde_yaml = "*"
toml = "*"
