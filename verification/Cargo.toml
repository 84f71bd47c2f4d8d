[package]
name = "app_server"
version = "0.1.0"
edition = "2021"
publish = false

[dependencies]
actix-multipart = { version = "*", default-features = false }
actix-web = { version = "4", default-features = false, features = ["macros"] }
anyhow = "1"
futures = "0.3"
json_value_merge = "*"
log = "0.4"
reqwest = { version = "0.12", default-features = false, features = ["json", "stream"] }
reqwest-eventsource = "0.6"
serde = { version = "1", features = ["derive"] }
serde_json = "1"
tokio = { version = "1", features = ["sync"] }
uuid = { version = "1", features = ["serde"] }
