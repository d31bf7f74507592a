[package]
name = "tfg_backend"
version = "0.1.0"
edition = "2021"
publish = false

[dependencies]
argon2 = "0.5"
hmac = "0.12"
sha2 = "0.10"
jwt = "0.16"
time = { version = "0.3", features = ["formatting", "parsing", "macros"] }
sqlx = { version = "0.8", default-features = false, features = ["mysql", "runtime-tokio", "chrono", "time", "bigdecimal", "macros", "derive"] }
bigdecimal = "0.4"
rocket = { version = "0.5", features = ["json"] }
rocket_cors = "0.6"
serde = { version = "1", features = ["derive"] }
thiserror = "1"
tokio = { version = "1", features = ["macros", "rt-multi-thread"] }
dotenv = "0.15"
lazy_static = "1"
