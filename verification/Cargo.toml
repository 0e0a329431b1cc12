[package]
name = "posterbot_constructor"
version = "0.1.0"
edition = "2021"
publish = false

[dependencies]
anyhow = "=1.0.104"
chrono = { version = "=0.4.45", default-features = false, features = ["clock", "std"] }
dashmap = "=6.2.1"
dotenvy = "=0.15.7"
dptree = "=0.3.0"
ron = "=0.8.1"
serde = { version = "=1.0.229", features = ["derive"] }
sha2 = "=0.10.9"
sqlx = { version = "=0.8.6", default-features = false, features = ["postgres", "runtime-tokio", "macros", "chrono"] }
takecell = "=0.1.1"
teloxide = { version = "=0.13.0", default-features = false, features = ["macros", "ctrlc_handler", "rustls"] }
tokio = { version = "=1.54.1", features = ["rt-multi-thread", "macros", "sync"] }
tracing = "=0.1.44"
tracing-subscriber = { version = "=0.3.23", features = ["env-filter"] }
url = "=2.5.8"
uuid = { version = "=1.29.0", features = ["v4"] }
