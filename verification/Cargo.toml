[package]
name = "ipstruct"
version = "0.2.0"
edition = "2021"
publish = false

[dependencies]
reqwest = { version = "=0.11.27", features = ["json", "blocking"] }
serde = { version = "=1.0.229", features = ["derive"] }

[dev-dependencies]
http = "=0.2.12"
