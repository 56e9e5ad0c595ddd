[package]
name = "mask"
version = "0.1.0"
edition = "2021"
publish = false

[dependencies]
sqlx = { version = "*", default-features = false, features = ["postgres", "runtime-tokio"] }
tokio = { version = "*", features = ["macros", "rt-multi-thread"] }
futures = "*"
tonic = { version = "*", default-features = false }
toml = "*"
log = "*"
env_logger = "*"
color-eyre = "*"
