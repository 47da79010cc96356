[package]
name = "humble_keys"
version = "0.1.0"
edition = "2021"
publish = false

[dependencies]
serde_json = "=1.0.151"
regex = "=1.13.1"
url = "=2.5.8"
serde = { version = "*", features = ["derive"] }
clap = { version = "*", features = ["derive"] }
csv = "*"
futures = "*"
indicatif = "*"
rayon = "*"
reqwest = { version = "*", default-features = false, features = ["query"] }
scraper = "*"
tokio = { version = "*", features = ["macros", "rt-multi-thread"] }
