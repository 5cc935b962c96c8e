[package]
name = "stock_manager"
version = "0.1.0"
edition = "2021"
publish = false

[dependencies]
chrono = { version = "0.4", features = ["serde"] }
deadpool-postgres = "0.14"
postgres = { version = "0.19", features = ["with-chrono-0_4"] }
serde = { version = "1", features = ["derive"] }
actix-web = "4"
actix-cors = "0.7"
log = "0.4"
env_logger = "0.11"
dotenv = "0.15"
