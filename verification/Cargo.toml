[package]
name = "rns_interface"
version = "0.1.0"
edition = "2021"
publish = false

[dependencies]
bytes = "=1.12.1"
rand = "=0.8.8"
uuid = "=1.29.0"
futures = "=0.3.34"
jni = "=0.19.0"
tracing = "=0.1.44"
serde = { version = "=1.0.229", features = ["derive"] }
tokio = { version = "=1.54.1", features = ["net", "io-util", "rt", "rt-multi-thread", "sync", "time", "macros"] }
btleplug = "=0.11.8"
bluer = "=0.17.4"
