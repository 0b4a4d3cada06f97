[package]
name = "rf_tester"
version = "0.1.0"
edition = "2021"
publish = false

[dependencies]
semtech-udp = { version = "=0.12.0", features = ["server"] }
rand = "=0.8.5"
tokio = { version = "=1.53.2", features = ["rt-multi-thread", "macros", "sync", "time", "net"] }
futures = "=0.3.34"
serde = { version = "=1.0.229", features = ["derive"] }
serde_json = "=1.0.151"
structopt = "=0.3.26"
strum = "=0.28.0"
strum_macros = "=0.28.0"
