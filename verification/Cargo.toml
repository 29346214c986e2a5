[package]
name = "plc_service"
version = "0.1.0"
edition = "2021"
publish = false

[dependencies]
anyhow = "=1.0.104"
chrono = { version = "=0.4.45", default-features = false, features = ["clock", "std"] }
clap = { version = "=4.6.7", features = ["derive"] }
compile-time = "=0.2.0"
hex = "=0.4.3"
jsonschema = { version = "=0.18.3", default-features = false }
lazy_static = "=1.5.1"
nix = "=0.26.4"
paho-mqtt = { version = "=0.12.5", default-features = false, features = ["bundled"] }
rusqlite = { version = "=0.41.1", features = ["bundled"] }
serde = { version = "=1.0.229", features = ["derive"] }
serde_json = { version = "=1.0.154", features = ["preserve_order"] }
serialport = { version = "=4.10.1", default-features = false }
syslog-tracing = "=0.3.1"
thiserror = "=1.0.69"
threadpool = "=1.8.1"
time = { version = "=0.3.55", features = ["macros", "local-offset"] }
timer = "=0.2.0"
tracing = "=0.1.44"
tracing-subscriber = { version = "=0.3.23", features = ["env-filter", "local-time"] }
