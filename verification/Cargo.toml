[package]
name = "invoker"
version = "0.1.0"
edition = "2021"
publish = false

[dependencies]
serde_json = "=1.0.154"
dashmap = "=6.2.1"
serde = { version = "=1.0.229", features = ["derive"] }
tokio = { version = "=1.54.1", features = ["full"] }
futures = "=0.3.34"
async-nats = "=0.51.0"
async-trait = "=0.1.92"
bb8 = "=0.8.6"
actix-web = { version = "=4.18.1", default-features = false, features = ["macros"] }
reqwest = { version = "=0.12.28", default-features = false, features = ["json"] }
mongodb = { version = "=3.9.1", default-features = false, features = ["compat-3-0-0", "rustls-tls"] }
moka = { version = "=0.12.16", features = ["future"] }
nats = "=0.26.0"
once_cell = "=1.21.4"
log = "=0.4.35"
log4rs = { version = "=1.4.0", default-features = false, features = ["config_parsing", "yaml_format", "console_appender", "file_appender", "pattern_encoder"] }
