[package]
name = "did_it_run"
version = "0.1.0"
edition = "2021"
publish = false

[dependencies]
chrono = { version = "=0.4.45", features = ["serde"] }
clap = "=2.34.0"
dirs = "=2.0.2"
lazy_static = "=1.5.1"
lettre = "=0.9.6"
lettre_email = "=0.9.4"
libnotify = "=1.0.3"
mac-notification-sys = "0.3"
native-tls = "=0.2.18"
semver = "=0.9.0"
serde = { version = "=1.0.229", features = ["derive"] }
serde_derive = "=1.0.229"
toml = "=0.5.11"
uuid = { version = "=0.8.2", features = ["serde"] }
winrt = { version = "0.5", features = ["windows-data", "windows-ui"] }
