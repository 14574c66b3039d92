[package]
name = "stash_client"
version = "0.1.0"
edition = "2021"
publish = false

[dependencies]
graphql_client = { version = "0.14", default-features = false }
reqwest = { version = "0.12", features = ["json"] }
serde = { version = "1", features = ["derive"] }
