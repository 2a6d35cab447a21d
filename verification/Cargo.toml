[package]
name = "esp_remotecontrolled_led_matrix_client"
version = "0.1.0"
edition = "2021"
publish = false

[dependencies]
bufstream = "=0.1.4"
tokio = { version = "=1.53.2", features = ["net", "io-util", "sync", "rt-multi-thread"] }
