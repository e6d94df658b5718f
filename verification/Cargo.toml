[package]
name = "vault"
version = "0.1.0"
edition = "2021"
publish = false

[dependencies]
anyhow = "=1.0.104"
bytes = "=1.12.1"
hex = "=0.4.3"
hkdf = "=0.12.4"
qrcode = "=0.14.1"
rand = "=0.8.8"
security-framework = "2"
serde = { version = "=1.0.229", features = ["derive"] }
serde_bytes = "=0.11.19"
serde_cbor = "=0.11.2"
serde_json = "=1.0.154"
sha2 = "=0.10.9"
snow = "=0.9.6"
thiserror = "=1.0.69"
tiny_http = "=0.12.0"
tokio = { version = "=1.54.1", features = ["rt-multi-thread", "macros", "net", "io-util", "sync", "time"] }
tracing = "=0.1.44"
tracing-subscriber = "=0.3.23"
windows-service = "0.7"
windows-sys = { version = "=0.61.2", features = ["Win32_Foundation", "Win32_Security_Cryptography", "Win32_System_Memory"] }
