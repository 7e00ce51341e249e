[package]
name = "sealed_notes"
version = "0.1.0"
edition = "2021"
publish = false

[dependencies]
actix-cors = "0.6"
actix-governor = "*"
actix-web = { version = "4", default-features = false, features = ["macros"] }
derive_more = "0.99"
diesel = { version = "2", features = ["postgres", "r2d2"] }
diesel_migrations = "2"
dotenv = "0.15"
env_logger = "0.10"
jsonwebtoken = "9"
log = "0.4"
nanoid = "0.4"
r2d2 = "0.8"
serde = { version = "1", features = ["derive"] }
serde_derive = "1"
serde_json = "1"
tindercrypt = { version = "0.3", default-features = false }
uuid = { version = "1", features = ["v4"] }
