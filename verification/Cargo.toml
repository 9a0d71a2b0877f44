[package]
name = "lobsters-cli"
version = "0.1.0"
edition = "2021"
publish = false

[dependencies]
chrono = "=0.4.45"
chrono-humanize = "=0.2.3"
cookie_store = "=0.22.1"
directories = "=6.0.0"
env_logger = "=0.11.11"
futures = "=0.3.34"
kuchiki = "=0.8.1"
log = "0.4"
opener = "=0.9.0"
reqwest = { version = "=0.12.28", default-features = false, features = ["json", "rustls-tls"] }
serde = { version = "1", features = ["derive"] }
structopt = "=0.3.26"
termion = "=1.5.6"
tokio = { version = "=1.54.1", features = ["rt-multi-thread"] }
url = "=2.5.8"
