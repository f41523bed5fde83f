[package]
name = "otp_core"
version = "0.1.0"
edition = "2021"
publish = false

[dependencies]
rand = "0.8"
bcrypt = "0.15"
chrono = "0.4"
serde = { version = "1", features = ["derive"] }
serde_json = "1"
mongodb = "2"
actix-web = { version = "4", default-features = false, features = ["macros", "cookies"] }
lettre = { version = "0.11", default-features = false, features = ["smtp-transport", "builder", "hostname", "pool", "rustls-tls"] }
tera = { version = "1", default-features = false }
dotenvy = "0.15"
