[package]
name = "auth_core"
version = "0.1.0"
edition = "2021"
publish = false

[dependencies]
argon2 = "0.5"
chrono = "0.4"
jsonwebtoken = "9"
rand_core = { version = "0.6", features = ["getrandom"] }
serde_json = "1"
serde = { version = "1", features = ["derive"] }
actix-web = "4"
actix-cors = "0.7"
diesel = { version = "2", features = ["postgres", "r2d2"] }
dotenv = "0.15"
env_logger = "0.11"
derive_more = { version = "1", features = ["display", "error"] }
