[package]
name = "backend"
version = "0.1.0"
edition = "2021"
publish = false

[dependencies]
chrono = { version = "=0.4.45", default-features = false, features = ["clock", "std", "serde"] }
uuid = { version = "=1.29.0", features = ["v7", "serde"] }
base64 = "=0.22.1"
dotenvy = "=0.15.7"
actix-web = { version = "=4.18.1", default-features = false, features = ["macros"] }
sea-orm = { version = "=1.1.20", default-features = false, features = ["macros", "with-chrono", "with-uuid"] }
sea-orm-migration = { version = "=1.1.20", default-features = false }
serde = { version = "=1.0.229", features = ["derive"] }
thiserror = "=2.0.21"
tracing = "=0.1.44"
