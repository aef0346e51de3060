[package]
name = "linkie"
version = "0.1.0"
edition = "2021"
publish = false

[dependencies]
uuid = { version = "=1.27.0", features = ["v4"] }
warp = { version = "=0.4.3", features = ["server"] }
tokio = { version = "=1.53.2", features = ["macros", "rt-multi-thread", "sync"] }
tokio-postgres = "=0.7.18"
deadpool-postgres = "=0.14.2"
deadpool-redis = "=0.23.1"
serde = { version = "=1.0.229", features = ["derive"] }
serde_json = "=1.0.151"
dotenv = "=0.15.0"
env_logger = "=0.11.11"
log = "=0.4.34"
qrcode = "=0.14.1"
image = { version = "=0.25.10", default-features = false, features = ["png"] }
base64 = "=0.22.1"
thiserror = "=2.0.21"
