[package]
name = "portal"
version = "0.1.0"
edition = "2021"
publish = false

[dependencies]
chrono = "0.4"
actix-web = { version = "4", default-features = false }
actix-session = "*"
actix-multipart = "*"
actix-web-httpauth = "*"
futures = "0.3"
diesel = { version = "1.4", features = ["postgres", "chrono"] }
sailfish = "*"
serde = { version = "1", features = ["derive"] }
serde_json = "1"
