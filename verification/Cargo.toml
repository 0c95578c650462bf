[package]
name = "plant_ingest"
version = "0.1.0"
edition = "2021"
publish = false

[dependencies]
rand = "0.8"
chrono = "0.4"
actix-web = "4"
deadpool-postgres = "0.12"
tokio = { version = "1", features = ["rt", "macros"] }
tokio-postgres = "0.7"
dotenv = "0.15"
serde = { version = "1", features = ["derive"] }
tokio-pg-mapper = "0.2"
tokio-pg-mapper-derive = "0.2"
