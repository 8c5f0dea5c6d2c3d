[package]
name = "exchange_persist"
version = "0.1.0"
edition = "2021"
publish = false

[dependencies]
actix-web = { version = "4", default-features = false, features = ["macros"] }
anyhow = "1"
crossbeam-channel = "0.5"
log = "0.4"
paperclip = { version = "*", features = ["actix4"] }
rust_decimal = "1"
serde = { version = "1", features = ["derive"] }
sqlx = { version = "0.8", default-features = false, features = ["postgres", "runtime-tokio"] }
tokio = { version = "1", features = ["rt", "time"] }
