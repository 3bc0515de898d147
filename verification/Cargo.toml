[package]
name = "cashflow_auth"
version = "0.1.0"
edition = "2021"
publish = false

[dependencies]
argon2rs = "=0.2.5"
jsonwebtoken = { version = "=11.1.0", default-features = false, features = ["rust_crypto"] }
chrono = "=0.4.45"
serde = { version = "*", features = ["derive"] }
serde_json = "*"
actix-web = "*"
actix-cors = "*"
dotenv = "*"
envy = "*"
env_logger = "*"
log = "*"
futures = "*"
tokio = { version = "*", features = ["macros", "rt-multi-thread"] }
lazy_static = "*"
reqwest = { version = "*", default-features = false, features = ["json"] }
twilio = "*"
