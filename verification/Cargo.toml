[package]
name = "dev_monitor"
version = "0.1.0"
edition = "2021"
publish = false

[dependencies]
rppal = "*"
clap = { version = "*", features = ["derive"] }
serde = { version = "*", features = ["derive"] }
serde_json = "*"
sysfs_gpio = "*"
