[package]
name = "geoip_lookup"
version = "0.1.0"
edition = "2021"
publish = false

[dependencies]
dns-lookup = "=2.1.1"
log = "=0.4.34"
maxminddb = "=0.32.0"
pretty_env_logger = "=0.5.0"
serde = { version = "=1.0.229", features = ["derive"] }
tokio = { version = "=1.54.1", features = ["macros", "rt-multi-thread"] }
warp = "=0.3.7"
