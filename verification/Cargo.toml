[package]
name = "rs_events"
version = "0.1.0"
edition = "2021"
publish = false

[dependencies]
jsonwebtoken = "9"
libpasta = "*"
serde_json = "1"
uuid = { version = "1", features = ["v4"] }
serde = { version = "1", features = ["derive"] }
rouille = "3"
diesel = { version = "2", features = ["postgres", "uuid"] }
dotenv = "0.15"
