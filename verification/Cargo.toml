[package]
name = "systemd2mqtt"
version = "0.1.0"
edition = "2021"
publish = false

[dependencies]
anyhow = "=1.0.104"
async-ctrlc = { version = "=1.2.0", features = ["stream"] }
clap = { version = "=4.6.7", features = ["derive", "env"] }
env_logger = "=0.11.11"
futures = "=0.3.34"
log = "=0.4.34"
serde_json = "=1.0.154"
serde_urlencoded = "=0.7.1"
thiserror = "=2.0.21"
tokio = { version = "=1.54.1", features = ["macros", "rt"] }
url = "=2.5.8"
zbus_systemd = { version = "=0.26201.0", features = ["systemd1", "hostname1"] }
