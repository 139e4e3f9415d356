[package]
name = "precios-carburantes"
version = "0.1.0"
edition = "2021"
publish = false

[dependencies]
sha2 = "0.10"
sha3 = "0.10"
x509-parser = "0.16"
mime_guess = "2"
axum = "0.8"
axum-macros = "0.5"
tokio = { version = "1", features = ["full"] }
serde = { version = "1", features = ["derive"] }
serde_json = "1"
reqwest = { version = "0.12", default-features = false, features = ["json", "blocking", "rustls-tls"] }
rusqlite = { version = "0.37", features = ["bundled"] }
r2d2 = "0.8"
r2d2_sqlite = "0.31"
tracing = "0.1"
tracing-subscriber = { version = "0.3", features = ["env-filter"] }
dotenvy = "0.15"
chrono = { version = "0.4", features = ["serde"] }
geo = "0.30"
geo-types = "0.7"
polyline = "0.11"
rstar = "0.12"
rayon = "1"
bytemuck = { version = "1", features = ["derive"] }
include_dir = "0.7"
thiserror = "2"
