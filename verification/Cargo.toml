[package]
name = "mini_mqtt_client"
version = "0.1.0"
edition = "2021"
publish = false

[dependencies]
chrono = "0.4"
uuid = { version = "1", features = ["v4"] }
parking_lot = "0.12"
serde = { version = "1", features = ["derive"] }
serde_yaml = "0.9"
rusqlite = { version = "0.32", features = ["bundled"] }
rumqttc = { version = "0.25", features = ["use-rustls", "websocket"] }
tokio = { version = "1", features = ["sync", "time", "rt", "rt-multi-thread", "macros", "net", "io-util"] }
rustls-native-certs = "0.8"
rustls-pemfile = "2"
pem = "3"
pkcs8 = { version = "0.10", features = ["encryption", "pem"] }
