[package]
name = "simplesql"
version = "0.1.0"
edition = "2021"
publish = false

[dependencies]
atty = "=0.2.14"
clap = "=4.6.7"
edtui = "=0.9.9"
fern = "=0.7.1"
humantime = "=2.4.0"
json5 = "=1.3.4"
log = "=0.4.34"
ratatui = "=0.29.0"
serde = { version = "=1.0.229", features = ["derive"] }
serde_json = "=1.0.154"
sqlx = { version = "=0.9.0", default-features = false, features = ["runtime-tokio", "mysql", "postgres", "any"] }
tokio = { version = "=1.54.1", features = ["rt-multi-thread", "macros"] }
toml = "=1.1.8"
tui-logger = "=0.17.4"
tui-popup = "=0.6.0"
tui-textarea = "=0.7.0"
widgetui = "=0.7.1"
