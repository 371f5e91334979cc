[package]
name = "armafield-server"
version = "0.1.0"
edition = "2021"
publish = false

[dependencies]
anyhow = "1"
clap = { version = "4", features = ["derive"] }
ctrlc = "3"
serde = { version = "1", features = ["derive"] }
serde_json = "1"
shell-words = "1"
thiserror = "2"
toml = "0.8"
tracing = "0.1"
tracing-appender = "0.2"
tracing-subscriber = { version = "0.3", features = ["env-filter", "json"] }
ureq = "2"
windows = { version = "0.58", features = ["Win32_Foundation", "Win32_UI_Shell", "Win32_System_Console", "Win32_System_Threading", "Win32_System_Registry"] }
windows-service = "0.7"
zip = "2"
