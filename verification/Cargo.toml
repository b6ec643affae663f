[package]
name = "auth_engine"
version = "0.1.0"
edition = "2021"
publish = false

[dependencies]
jsonwebtoken = "=9.3.1"
argon2 = "=0.5.3"
password-hash = "=0.5.0"
rand = "=0.9.5"
rand_core = { version = "=0.6.4", features = ["std"] }
serde = { version = "1", features = ["derive"] }
serde_json = "1"
time = "0.3"
actix-web = "4"
sqlx = { version = "=0.8.6", default-features = false, features = ["runtime-tokio", "mysql", "time"] }
anyhow = "1"
dotenvy = "0.15"
regex = "1"
rand_regex = "=0.18.1"
