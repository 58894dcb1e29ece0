[package]
name = "nano"
version = "0.1.0"
edition = "2021"
publish = false

[dependencies]
regex = "=1.13.1"
edit-distance = "=2.2.2"
scraper = "=0.29.0"
rand = "=0.8.8"
ariadne = "=0.3.0"
anyhow = "1"
serde = { version = "1", features = ["derive"] }
serde_json = "1"
tokio = { version = "1", features = ["macros", "rt-multi-thread"] }
reqwest = { version = "=0.11.27", features = ["json"] }
serenity = "=0.11.7"
poise = "=0.5.7"
redis = "=0.23.5"
serenity-additions = "=0.3.4"
pomsky-macro = "=0.12.0"
deepl-openapi = "=2.7.1"
comemo = "0.3"
image = { version = "0.24", default-features = false, features = ["png"] }
bytemuck = "1"
