[package]
name = "silero_vad"
version = "0.1.0"
edition = "2021"
publish = false

[dependencies]
hound = "=3.5.1"
parking_lot = "=0.12.5"
ort = { version = "=2.0.0-rc.9", default-features = false, features = ["ndarray", "load-dynamic"] }
ort-sys = "=2.0.0-rc.9"
ndarray = "=0.16.1"
thiserror = "=1.0.69"
anyhow = "=1.0.104"
serde = { version = "=1.0.229", features = ["derive"] }
serde_json = "=1.0.154"
config = { version = "=0.14.1", default-features = false, features = ["yaml"] }
clap = "=4.6.7"
tokio = { version = "=1.54.1", features = ["macros", "rt-multi-thread"] }
tonic = "=0.12.3"
tonic-reflection = "=0.12.3"
prost = "=0.13.5"
prost-types = "=0.13.5"
futures = "=0.3.34"
env_logger = "=0.11.11"
log = "=0.4.34"
