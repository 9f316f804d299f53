[package]
name = "split_server"
version = "0.1.0"
edition = "2021"
publish = false

[dependencies]
uuid = { version = "=1.29.1", features = ["v4", "v7"] }
anyhow = "=1.0.104"
async-graphql = { version = "=7.2.1", features = ["dataloader"] }
async-graphql-axum = "=7.2.1"
async-trait = "=0.1.92"
axum = "=0.8.9"
dotenvy = "=0.15.7"
sqlx = { version = "=0.8.6", default-features = false, features = ["sqlite", "runtime-tokio", "uuid", "migrate", "derive"] }
tokio = { version = "=1.54.1", features = ["macros", "rt-multi-thread", "net"] }
