[package]
name = "ctc_server"
version = "0.1.0"
edition = "2021"
publish = false

[dependencies]
tokio = { version = "1", features = ["rt-multi-thread", "macros", "sync", "time", "signal"] }
tokio-modbus = { version = "*", default-features = false, features = ["rtu"] }
tokio-serial = "*"
tokio-util = "*"
futures-util = "*"
axum = "*"
serde = { version = "1", features = ["derive"] }
serde_json = "1"
chrono = "*"
gpiocdev = "*"
tracing = "*"
tracing-subscriber = "*"
thiserror = "*"
redb = "*"
reqwest = { version = "*", default-features = false, features = ["blocking", "json"] }
clap = { version = "*", features = ["derive"] }
ctrlc = "*"
