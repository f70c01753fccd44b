[package]
name = "doordash_gen"
version = "0.1.0"
edition = "2021"
publish = false

[dependencies]
rand = "0.8"
chrono = "0.4"
anyhow = "1"
config = "*"
serde = { version = "1", features = ["derive"] }
thirtyfour = "*"
tokio = { version = "1", features = ["macros", "rt-multi-thread"] }
tracing = "0.1"
tracing-subscriber = "*"
