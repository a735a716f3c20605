[package]
name = "csc1106"
version = "0.1.0"
edition = "2021"
publish = false

[dependencies]
rust_decimal = "1"
chrono = "0.4"
argon2 = "0.5"
sea-orm = { version = "1", default-features = false, features = ["macros", "with-chrono", "with-rust_decimal", "sqlx-sqlite", "runtime-tokio-rustls"] }
sea-orm-migration = { version = "1", default-features = false, features = ["sqlx-sqlite", "runtime-tokio-rustls"] }
sqlx = { version = "0.8", default-features = false, features = ["sqlite", "runtime-tokio"] }
actix-web = "4"
actix-identity = "0.8"
actix-session = { version = "0.10", features = ["cookie-session"] }
actix-files = "0.6"
tera = { version = "1", default-features = false }
serde = { version = "1", features = ["derive"] }
futures = "0.3"
async-trait = "0.1"
