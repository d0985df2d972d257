[package]
name = "graphql_client"
version = "0.1.0"
edition = "2021"
publish = false

[dependencies]
graphql-parser = "0.4"
serde = { version = "1", features = ["derive"] }
serde_json = "1"
sha2 = "0.10"
heck = "0.5"
proc-macro2 = "1"
quote = "1"
reqwest = { version = "0.12", default-features = false, features = ["json", "blocking"] }
