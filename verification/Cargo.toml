[package]
name = "ajam"
version = "0.1.0"
edition = "2021"
publish = false

[dependencies]
image = "=0.25.10"
serde = { version = "=1.0.229", features = ["derive"] }
serde_json = "=1.0.151"
serde_yaml = "=0.9.34"
tokio = { version = "=1.53.2", features = ["rt-multi-thread", "macros", "sync", "time", "process", "signal"] }
clap = { version = "=4.6.7", features = ["derive"] }
plist = "=1.10.1"
libc = "=0.2.190"
enigo = "=0.6.1"
ajazz-sdk = { version = "=0.2.1", features = ["async"] }
