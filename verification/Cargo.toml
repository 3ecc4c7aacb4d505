[package]
name = "crud_service"
version = "0.1.0"
edition = "2021"
publish = false

[dependencies]
rocket = { version = "=0.5.2", features = ["json"] }
rocket_sync_db_pools = { version = "=0.1.0", features = ["diesel_sqlite_pool"] }
diesel = { version = "=2.3.14", features = ["sqlite", "chrono"] }
diesel_migrations = "=2.3.2"
chrono = { version = "0.4", default-features = false, features = ["serde"] }

[dev-dependencies]
rand = "=0.8.8"
