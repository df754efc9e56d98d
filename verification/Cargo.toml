[package]
name = "rknx"
version = "0.1.0"
edition = "2021"
publish = false

[dependencies]
byteorder = "=1.5.0"
chrono = "=0.4.45"
futures-util = "=0.3.34"
hidapi = { version = "=2.6.7", default-features = false, features = ["linux-native-basic-udev"] }
if-addrs = "=0.15.0"
rumqttc = "=0.25.1"
rusqlite = { version = "=0.41.1", features = ["bundled"] }
serde = { version = "=1.0.229", features = ["derive"] }
serde_json = "=1.0.154"
thiserror = "=2.0.21"
tokio = { version = "=1.54.1", features = ["full"] }
tokio-serial = "=5.5.0"
tokio-tungstenite = "=0.30.0"
toml = "=1.1.8"
