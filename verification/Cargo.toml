[package]
name = "item_service"
version = "0.1.0"
edition = "2021"
publish = false

[dependencies]
bson = "2"
mongodb = "2"
actix-web = "4"
serde = { version = "1", features = ["derive"] }
futures-util = "0.3"
