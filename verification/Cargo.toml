[package]
name = "starship"
version = "0.1.0"
edition = "2021"
publish = false

[dependencies]
nanoid = "=0.4.0"
email_address = "=0.2.9"
bcrypt = "=0.15.1"
libreauth = { version = "=0.16.0", default-features = false, features = ["oath", "oath-uri", "key"] }
rand = "=0.8.8"
chrono = { version = "=0.4.45", default-features = false, features = ["clock", "std"] }
serde = { version = "=1.0.229", features = ["derive"] }
hmac = "=0.12.1"
sha2 = "=0.10.9"
jwt = "=0.16.0"
async-graphql = { version = "=7.2.1", default-features = false, features = ["chrono", "graphiql"] }
async-graphql-actix-web = "=7.2.1"
actix-web = { version = "=4.18.1", default-features = false, features = ["macros"] }
actix-cors = "=0.7.2"
sea-orm = { version = "=1.1.20", default-features = false, features = ["macros", "with-chrono", "with-uuid", "postgres-array", "sqlx-postgres", "runtime-actix"] }
dotenv = "=0.15.0"
env_logger = "=0.11.11"
log = "=0.4.35"
