[package]
name = "deposit_box"
version = "0.1.0"
edition = "2021"
publish = false

[dependencies]
askama = "=0.12.1"
async-trait = "=0.1.92"
aws-config = { version = "1", default-features = false, features = ["behavior-version-latest", "rt-tokio"] }
aws-sdk-translate = { version = "1", default-features = false, features = ["behavior-version-latest", "rt-tokio"] }
bytes = "=1.12.1"
chrono = { version = "=0.4.45", default-features = false, features = ["alloc", "std"] }
comrak = { version = "=0.43.0", default-features = false }
dotenv = "=0.15.0"
geoutils = "=0.5.1"
indexmap = "=2.14.2"
log = "=0.4.34"
maxminddb = "=0.24.0"
octocrab = "=0.44.1"
pretty_env_logger = "=0.5.0"
regex = "=1.13.1"
reqwest = { version = "=0.12.28", default-features = false, features = ["rustls-tls"] }
rocket = "=0.5.2"
rocket-accept-language = "=0.8.6"
rust-s3 = { version = "=0.35.1", default-features = false, features = ["tokio-rustls-tls"] }
serde = { version = "=1.0.229", features = ["derive"] }
serde_yaml = "=0.9.34"
thiserror = "=1.0.69"
tokio = { version = "=1.54.1", features = ["fs", "macros"] }
version-compare = "=0.2.1"
xdg = "=2.5.2"
