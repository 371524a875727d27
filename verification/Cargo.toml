[package]
name = "drasi_source_mqtt"
version = "0.1.0"
edition = "2021"
publish = false

[dependencies]
serde_json = "=1.0.151"
chrono = "=0.4.45"
rumqttc = { version = "=0.25.1", default-features = false }
tokio = { version = "=1.53.2", features = ["macros", "rt-multi-thread"] }
