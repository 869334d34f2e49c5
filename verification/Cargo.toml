[package]
name = "graphql_server"
version = "0.1.0"
edition = "2021"
publish = false

[dependencies]
argon2 = { version = "*", features = ["std"] }
uuid = { version = "*", features = ["v4"] }
validator = "*"
actix-web = { version = "*", default-features = false, features = ["macros", "cookies"] }
actix-session = { version = "*", features = ["cookie-session"] }
juniper = { version = "*", default-features = false }
sqlx = { version = "*", default-features = false, features = ["runtime-tokio", "postgres", "uuid", "time"] }
serde = { version = "*", features = ["derive"] }
serde_json = "*"
time = { version = "*", features = ["serde", "formatting", "parsing"] }
dotenv = "*"
env_logger = { version = "*", default-features = false }
log = "*"
