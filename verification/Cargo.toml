[package]
name = "event_sourcing"
version = "0.1.0"
edition = "2021"
publish = false

[dependencies]
async-trait = "=0.1.92"
autoincrement = "=1.0.1"
chrono = { version = "=0.4.45", features = ["serde"] }
eventstore = "=2.3.0"
redis-om = { version = "=0.1.0", features = ["json"] }
rusty_ulid = "=2.0.1"
serde = { version = "=1.0.229", features = ["derive"] }
serde_json = "=1.0.154"
thiserror = "=1.0.69"
uuid = { version = "=1.29.0", features = ["v4"] }
