[package]
name = "qa_service"
version = "0.1.0"
edition = "2021"
publish = false

[dependencies]
uuid = "1"
sqlx = { version = "0.8", default-features = false, features = ["postgres", "runtime-tokio"] }
tokio = { version = "1", features = ["rt-multi-thread", "macros"] }
dotenvy = "0.15"
log = "0.4"
pretty_env_logger = "0.5"
