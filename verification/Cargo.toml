[package]
name = "synclan"
version = "0.1.0"
edition = "2021"
publish = false

[dependencies]
aes-gcm = "=0.10.3"
anyhow = "=1.0.104"
axum = "=0.8.9"
axum-extra = { version = "=0.10.3", features = ["typed-header"] }
axum-server = { version = "=0.7.3", features = ["tls-rustls"] }
axum_typed_multipart = "=0.16.8"
base64 = "=0.22.1"
chrono = "=0.4.45"
dashmap = "=6.2.1"
getrandom = "=0.3.4"
libc = "=0.2.191"
local-ip-address = "=0.6.13"
log = "=0.4.34"
once_cell = "=1.21.4"
parking_lot = "=0.12.5"
rcgen = "=0.13.2"
serde = { version = "=1.0.229", features = ["derive"] }
serde_json = "=1.0.154"
serde_yaml = "=0.9.34"
socketioxide = { version = "=0.18.7", features = ["state", "extensions"] }
sqlx = { version = "=0.8.6", default-features = false, features = ["sqlite", "runtime-tokio", "chrono", "derive", "migrate"] }
sys-locale = "=0.3.2"
tempfile = "=3.27.0"
thiserror = "=2.0.21"
tokio = { version = "=1.54.1", features = ["full"] }
tower-http = { version = "0.6", features = ["fs"] }
validator = { version = "=0.20.0", features = ["derive"] }
whoami = "=1.6.1"
