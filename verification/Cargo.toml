[package]
name = "activity_gateway"
version = "0.1.0"
edition = "2021"
publish = false

[dependencies]
serde = { version = "1", features = ["derive"] }
serde_json = "1"
reqwest = { version = "0.12", default-features = false, features = ["json", "blocking"] }
actix-web = { version = "4", default-features = false, features = ["macros"] }
