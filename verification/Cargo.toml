[package]
name = "ollama_filter"
version = "0.1.0"
edition = "2021"
publish = false

[dependencies]
serde_json = "*"
actix-web = { version = "*", default-features = false, features = ["macros"] }
reqwest = { version = "*", default-features = false }
em_filter = "*"
