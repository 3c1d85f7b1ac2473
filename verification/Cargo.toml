[package]
name = "lince"
version = "0.1.0"
edition = "2021"
publish = false

[dependencies]
dht-embedded = "*"
embedded-hal = { version = "0.2", features = ["unproven"] }
gpio-cdev = "*"
linux-embedded-hal = "*"
rand = "0.8"
rppal = "*"
rumqttc = { version = "*", default-features = false }
serde = { version = "1", features = ["derive"] }
spin_sleep = "1"
tokio = { version = "1", features = ["macros", "rt", "time"] }
toml = "*"
