[package]
name = "rust_tiobe"
version = "0.1.0"
edition = "2021"
publish = false

[dependencies]
scraper = "*"
chrono = "*"
serde = { version = "*", features = ["derive"] }
reqwest = { version = "*", default-features = false }
axum = "*"
tokio = { version = "*", features = ["macros", "rt-multi-thread", "net"] }
tower-http = { version = "*", features = ["fs"] }
utoipa = "*"
