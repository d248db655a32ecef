[package]
name = "pokedex"
version = "0.1.0"
edition = "2021"
publish = false

[dependencies]
url = "*"
reqwest = { version = "*", features = ["json"] }
poem = "*"
poem-openapi = { version = "*", features = ["swagger-ui"] }
poem-openapi-derive = "*"
serde = { version = "*", features = ["derive"] }
thiserror = "*"
eyre = "*"
tokio = { version = "*", features = ["macros", "rt-multi-thread"] }
tracing = "*"
tracing-subscriber = "*"
