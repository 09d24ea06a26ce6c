[package]
name = "eventsub"
version = "0.1.0"
edition = "2021"
publish = false

[dependencies]
hmac = "=0.13.0"
sha2 = "=0.11.0"
subtle = "=2.6.1"
serde_json = "=1.0.151"
serde = { version = "=1.0.229", features = ["derive"] }
bytes = "=1.12.1"
tokio = { version = "=1.53.2", features = ["macros", "rt-multi-thread", "sync"] }
warp = { version = "=0.4.3", features = ["server"] }
reqwest = { version = "=0.13.5", default-features = false, features = ["json"] }
