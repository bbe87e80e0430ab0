[package]
name = "blag"
version = "0.1.0"
edition = "2021"
publish = false

[dependencies]
axum = "*"
config = "*"
handlebars = "=6.4.4"
jsonwebtoken = { version = "=11.1.0", features = ["rust_crypto"] }
markdown = "*"
reqwest = { version = "*", default-features = false, features = ["json"] }
serde = { version = "*", features = ["derive"] }
serde_json = "=1.0.151"
sqlx = { version = "*", default-features = false, features = ["runtime-tokio", "postgres", "uuid", "derive"] }
tokio = { version = "*", features = ["rt-multi-thread", "macros", "net"] }
tower-http = { version = "*", features = ["cors", "fs"] }
tracing = "*"
tracing-subscriber = "*"
uuid = { version = "*", features = ["serde", "v4"] }
