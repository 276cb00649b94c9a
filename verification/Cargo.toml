[package]
name = "janitor_services"
version = "0.1.0"
edition = "2021"
publish = false

[dependencies]
url = "=2.5.8"
shlex = "=1.3.0"
patchkit = "=0.3.9"
debversion = { version = "=0.5.5", default-features = false }
chrono = { version = "=0.4.45", features = ["serde"] }
serde = { version = "=1.0.229", features = ["derive"] }
serde_json = "=1.0.154"
tokio = { version = "=1.54.1", features = ["full"] }
tokio-util = { version = "=0.7.20", features = ["rt", "io"] }
futures = "=0.3.34"
async-trait = "=0.1.92"
axum = "=0.8.9"
sqlx = { version = "=0.9.0", default-features = false, features = ["runtime-tokio", "postgres", "chrono", "json"] }
reqwest = { version = "=0.12.28", default-features = false, features = ["json"] }
redis = { version = "=1.8.1", default-features = false, features = ["tokio-comp", "aio"] }
prometheus = { version = "=0.14.0", default-features = false }
clap = { version = "=4.6.7", features = ["derive", "env"] }
tracing = "=0.1.44"
tracing-subscriber = "=0.3.23"
nix = { version = "=0.31.3", features = ["resource", "signal", "fs"] }
tempfile = "=3.27.0"
thiserror = "=2.0.21"
uuid = { version = "=1.29.0", features = ["v4"] }
rslock = { version = "=0.10.0", features = ["tokio-comp"] }
breezyshim = { version = "=0.7.31", default-features = false }
pyo3 = "=0.30.1"
