[package]
name = "animal_api"
version = "0.1.0"
edition = "2021"
publish = false

[dependencies]
actix-web = { version = "4", default-features = false, features = ["macros"] }
flexi_logger = { version = "*", default-features = false }
log = "0.4"
prometheus = { version = "0.13", default-features = false }
rand = "0.8"
serde = { version = "1", features = ["derive"] }
serde_json = "1"
subtle = "2"
toml = "*"
