[package]
name = "repo_sync"
version = "0.1.0"
edition = "2021"
publish = false

[dependencies]
git2 = { version = "=0.21.0", features = ["ssh"] }
serde = { version = "=1.0.229", features = ["derive"] }
serde_json = "=1.0.154"
color-eyre = "=0.6.5"
tracing = "=0.1.44"
tracing-chrome = "=0.7.2"
tracing-error = "=0.2.1"
tracing-subscriber = { version = "=0.3.23", features = ["env-filter"] }

[dev-dependencies]
tempfile = "=3.27.0"
