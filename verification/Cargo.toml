[package]
name = "meritbadge"
version = "0.1.0"
edition = "2021"
publish = false

[dependencies]
form_urlencoded = "=1.2.2"
log = "=0.4.34"
pretty_env_logger = "=0.5.0"
reqwest = { version = "=0.11.27", features = ["json"] }
serde = "=1.0.229"
serde_derive = "=1.0.229"
tokio = { version = "=1.54.1", features = ["macros", "rt-multi-thread"] }
warp = "=0.3.7"
