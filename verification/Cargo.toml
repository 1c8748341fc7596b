[package]
name = "rusttracks"
version = "0.1.0"
edition = "2021"
publish = false

[dependencies]
chrono = "0.4"
serde = { version = "1", features = ["derive"] }
serde_json = "1"
diesel = { version = "2", features = ["sqlite"] }
diesel_migrations = "2"
paho-mqtt = "0.12"
futures = "0.3"
async-std = "1"
log = "0.4"
env_logger = "0.11"
uuid = { version = "1", features = ["v4"] }
openssl = "0.10"
rocket = { version = "0.5", features = ["json"] }
rocket_sync_db_pools = { version = "0.1", features = ["diesel_sqlite_pool"] }
