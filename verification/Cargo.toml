[package]
name = "home_env_log"
version = "0.1.0"
edition = "2021"
publish = false

[dependencies]
anyhow = "=1.0.104"
bme280 = "=0.5.1"
chrono = "=0.4.45"
log = "=0.4.34"
rppal = { version = "=0.22.1", features = ["embedded-hal"] }
rusqlite = { version = "=0.40.2", features = ["bundled"] }
simplelog = "=0.12.2"
tokio = { version = "=1.53.2", features = ["macros", "rt-multi-thread", "time", "signal"] }
