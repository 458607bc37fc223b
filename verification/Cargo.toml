[package]
name = "feedpress"
version = "0.1.0"
edition = "2021"
publish = false

[dependencies]
chrono = "0.4"
clap = { version = "4", features = ["derive"] }
cron = "*"
hayagriva = "*"
html2md = "*"
log = "0.4"
log4rs = { version = "1", default-features = false, features = ["config_parsing", "yaml_format", "console_appender", "file_appender"] }
lopdf = "*"
reqwest = { version = "0.12", default-features = false, features = ["rustls-tls"] }
rocket = { version = "0.5", features = ["json"] }
rss = "*"
serde = { version = "1", features = ["derive"] }
tokio = { version = "1", features = ["full"] }
toml = "*"
url = "2"
