[package]
name = "rscat"
version = "0.1.0"
edition = "2021"
publish = false

[dependencies]
image = { version = "=0.25.10", default-features = false, features = ["png"] }
anyhow = "=1.0.104"
serde = { version = "=1.0.229", features = ["derive"] }
toml = "=0.8.2"
sysinfo = { version = "=0.33.1", default-features = false, features = ["system"] }
tray-icon = { version = "=0.19.3", default-features = false }
gtk = "=0.18.2"
slint = { version = "=1.4.1", default-features = false, features = ["std", "compat-1-2"] }
