[package]
name = "upnpav"
version = "0.1.0"
edition = "2021"
publish = false

[dependencies]
axum = "0.7"
chrono = "0.4"
fastrand = "2"
mac_address = "1"
quick-xml = "0.37"
tokio = { version = "1", features = ["net", "rt-multi-thread", "macros", "time"] }
tracing = "0.1"
uuid = { version = "1", features = ["v4", "v5"] }
