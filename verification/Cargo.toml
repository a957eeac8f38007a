[package]
name = "rumba"
version = "0.1.0"
edition = "2021"
publish = false

[dependencies]
openidconnect = { version = "2", default-features = false }
actix-web = { version = "4", default-features = false, features = ["cookies"] }
actix-identity = "0.4"
actix-session = { version = "0.7", features = ["cookie-session"] }
serde = { version = "1", features = ["derive"] }
serde_json = "1"
chrono = "0.4"
reqwest = { version = "0.11", default-features = false, features = ["json"] }
