[package]
name = "rrhh"
version = "0.1.0"
edition = "2021"
publish = false

[dependencies]
chrono = { version = "=0.4.45", features = ["serde"] }
serde_json = { version = "=1.0.154", features = ["raw_value"] }
serde = { version = "=1.0.229", features = ["derive"] }
jsonwebtoken = "=9.3.1"
actix-web = { version = "=4.18.1", default-features = false, features = ["macros"] }
actix-cors = "=0.7.2"
actix-service = "=2.0.3"
chrono-tz = "=0.10.4"
dotenv = "=0.15.0"
env_logger = "=0.11.11"
futures-util = "=0.3.34"
sqlx = { version = "=0.8.6", default-features = false, features = ["mysql", "runtime-tokio", "chrono", "json", "macros", "derive"] }
