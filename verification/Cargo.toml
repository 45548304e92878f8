[package]
name = "pharma_lib"
version = "0.1.0"
edition = "2021"
publish = false

[dependencies]
sha256 = { version = "=1.6.0", default-features = false }
sqlx = { version = "=0.8.6", default-features = false, features = ["rust_decimal"] }
sea-orm = { version = "=1.1.20", default-features = false, features = ["macros", "sqlx-mysql", "runtime-tokio-rustls", "with-rust_decimal", "with-chrono", "with-json"] }
sea-query = "=0.32.7"
num-traits = "=0.2.19"
serde = { version = "=1.0.229", features = ["derive"] }
toml = "=0.8.23"
tokio = { version = "=1.54.1", features = ["macros", "rt-multi-thread"] }
