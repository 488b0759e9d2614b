[package]
name = "git-lfs-synology"
version = "0.1.0"
edition = "2021"
publish = false

[dependencies]
aes-gcm = "=0.10.3"
anyhow = "=1.0.104"
app_dirs2 = "=2.5.5"
clap = { version = "=4.6.7", default-features = false, features = ["std", "help", "usage", "error-context"] }
gix-config = { version = "=0.62.2", features = ["sha1"] }
hostname = "=0.4.2"
keyring = { version = "=3.6.3", features = ["apple-native", "windows-native", "linux-native"] }
named-lock = "=0.3.0"
reqwest = { version = "=0.12.28", default-features = false, features = ["multipart", "stream", "rustls-tls"] }
rpassword = "=7.5.4"
rusqlite = "=0.41.0"
serde = { version = "=1.0.229", features = ["derive"] }
serde_json = "=1.0.154"
tokio = { version = "=1.54.1", features = ["rt-multi-thread", "macros", "fs", "io-util"] }
tracing = "=0.1.44"
tracing-appender = "=0.2.5"
tracing-subscriber = { version = "=0.3.23", default-features = false, features = ["std", "fmt", "ansi"] }
url = "=2.5.8"
urlencoding = "=2.1.3"
zstd = "=0.13.3"
