[package]
name = "rusty"
version = "0.1.0"
edition = "2021"
publish = false

[dependencies]
rocket = { version = "0.5", features = ["json"] }
rocket_dyn_templates = { version = "0.2", features = ["tera"] }
rocket_sync_db_pools = { version = "0.1", features = ["diesel_sqlite_pool"] }
diesel = { version = "2", features = ["sqlite"] }
diesel_migrations = "2"
serde = "=1.0.229"
serde_derive = "=1.0.229"
serde_json = "=1.0.154"
log = "=0.4.35"
imap = "=2.4.1"
native-tls = "=0.2.18"
rusoto_core = "=0.48.0"
rusoto_comprehend = "=0.48.0"
tokio = { version = "=1.54.1", features = ["rt-multi-thread"] }
json = "=0.12.4"
