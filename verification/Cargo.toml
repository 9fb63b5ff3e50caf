[package]
name = "linux-bsec-exporter"
version = "0.1.0"
edition = "2021"
publish = false

[dependencies]
anyhow = "1"
bme680 = "0.5"
embedded-hal = "0.2"
lazy_static = "1"
libsystemd = "*"
linux-embedded-hal = "0.3"
nb = "1"
prometheus = "0.13"
serde = { version = "1", features = ["derive"] }
tide = "0.16"
tokio = { version = "1", features = ["macros", "rt", "signal", "sync", "time"] }
toml = "0.5"
