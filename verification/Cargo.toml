[package]
name = "chat_archive"
version = "0.1.0"
edition = "2021"
publish = false

[dependencies]
time = { version = "0.3", features = ["formatting", "parsing", "macros"] }
uuid = "1"
tokio = { version = "1", features = ["full"] }
tokio-util = "0.7"
futures-util = "0.3"
async-stream = "0.3"
axum = "0.6"
axum-extra = { version = "0.4", features = ["query"] }
sea-orm = { version = "0.10", default-features = false, features = ["macros", "with-time", "with-uuid", "sqlx-postgres", "runtime-tokio-rustls"] }
sea-orm-migration = { version = "0.10", default-features = false, features = ["sqlx-postgres", "runtime-tokio-rustls"] }
async-trait = "0.1"
irc = { version = "0.15", default-features = false, features = ["ctcp", "tls-rust"] }
serde = { version = "1", features = ["derive"] }
serde_json = "1"
thiserror = "1"
log = "0.4"
pretty_env_logger = "0.4"
color-eyre = "0.6"
ron = "0.8"
ahash = "0.8"
reqwest = { version = "0.11", default-features = false, features = ["rustls-tls"] }
twitch_oauth2 = { version = "0.8", features = ["reqwest"] }
async-signals = "*"
libc = "0.2"
