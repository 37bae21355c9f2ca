[package]
name = "magnesium"
version = "0.1.0"
edition = "2021"
publish = false

[dependencies]
actix-web = "4"
actix-cors = "0.6"
actix-files = "0.6"
actix-multipart = "0.6"
mongodb = "2"
image = "0.24"
serde = { version = "1", features = ["derive"] }
serde_json = "1"
toml = "0.7"
chrono = "0.4"
dotenv = "0.15"
futures = "0.3"
uuid = { version = "1", features = ["v4"] }
rand = "0.8"
once_cell = "1"
