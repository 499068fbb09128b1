[package]
name = "logomenu"
version = "0.1.0"
edition = "2021"
publish = false

[dependencies]
freedesktop-desktop-entry = "=0.8.4"
i18n-embed = { version = "=0.16.0", features = ["fluent-system", "desktop-requester"] }
i18n-embed-fl = "=0.10.1"
logind-zbus = "=5.3.2"
once_cell = "=1.21.4"
phf = { version = "=0.14.0", features = ["macros"] }
rfd = "=0.17.2"
rust-embed = "=8.13.0"
rustix = { version = "=1.1.5", features = ["process"] }
serde = { version = "=1.0.229", features = ["derive"] }
sysinfo = "=0.39.6"
zbus = "=5.19.0"
