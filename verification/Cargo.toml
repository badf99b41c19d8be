[package]
name = "deezer"
version = "0.1.0"
edition = "2021"
publish = false

[dependencies]
async-trait = "0.1"
reqwest = { version = "0.11", features = ["json"] }
serde = { version = "1", features = ["derive"] }
thiserror = "1"
