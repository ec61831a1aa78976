[package]
name = "rustored"
version = "0.2.0"
edition = "2021"
publish = false

[dependencies]
anyhow = "=1.0.104"
async-trait = "=0.1.92"
aws-sdk-s3 = "=1.157.0"
chrono = "=0.4.45"
clap = { version = "=4.6.7", features = ["derive", "env"] }
crossterm = "=0.28.1"
dotenvy = "=0.15.7"
libc = "=0.2.191"
log = "=0.4.35"
log4rs = { version = "=1.4.0", default-features = false, features = ["file_appender", "pattern_encoder"] }
native-tls = "=0.2.18"
postgres-native-tls = "=0.5.3"
random_word = { version = "=0.4.3", features = ["en"] }
ratatui = "=0.28.1"
reqwest = "=0.12.28"
tokio = { version = "=1.54.1", features = ["full"] }
tokio-postgres = "=0.7.18"
