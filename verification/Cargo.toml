[package]
name = "netdisplay"
version = "0.1.0"
edition = "2021"
publish = false

[dependencies]
anyhow = "=1.0.104"
byteorder = "=1.5.0"
chrono = { version = "=0.4.45", default-features = false, features = ["std"] }
embedded-svc = "*"
env_logger = "=0.11.11"
esp-idf-hal = "*"
esp-idf-svc = "*"
esp-idf-sys = "*"
heapless = "=0.8.0"
log = "=0.4.34"
uuid = "=1.29.0"
