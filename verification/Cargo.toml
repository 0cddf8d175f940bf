[package]
name = "hc_notifications"
version = "0.1.0"
edition = "2021"
publish = false

[dependencies]
hdk = "=0.3.6"
hdi = "=0.4.6"
serde = { version = "=1.0.203", features = ["derive"] }
anyhow = "=1.0.104"
clap = { version = "=4.6.7", features = ["derive"] }
lettre = { version = "=0.11.23", default-features = false, features = ["builder", "smtp-transport", "hostname", "rustls-tls"] }
tokio = { version = "=1.54.1", features = ["rt-multi-thread", "macros", "signal"] }

[dev-dependencies]
hdk = { version = "=0.3.6", features = ["mock"] }
