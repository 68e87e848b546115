[package]
name = "souris_dw"
version = "0.4.0"
edition = "2021"
publish = false

[dependencies]
unicode-normalization = "=0.1.26"
sanitize-filename = "=0.6.0"
serde = { version = "=1.0.229", features = ["derive"] }
serde_json = "=1.0.154"
toml = "=1.1.8"
clap = { version = "=4.6.7", features = ["derive"] }
tokio = { version = "=1.54.1", features = ["rt-multi-thread", "macros", "process", "sync", "time", "fs", "io-util"] }
reqwest = { version = "=0.12.28", default-features = false, features = ["json", "rustls-tls", "stream"] }
thiserror = "=1.0.69"
anyhow = "=1.0.104"
tracing = "=0.1.44"
tracing-subscriber = "=0.3.23"
directories = "=6.0.0"
dirs = "=7.0.0"
dunce = "=1.0.5"
fs-err = "=3.3.2"
flate2 = "=1.1.10"
zip = { version = "=9.2.2", default-features = false, features = ["deflate"] }
indicatif = "=0.18.6"
tokio-stream = "=0.1.19"
which = "=8.0.6"
normalize-path = "=0.2.2"
async-trait = "=0.1.92"
ratatui = "=0.30.2"
crossterm = { version = "=0.29.0", features = ["osc52"] }
lofty = "=0.25.5"
textwrap = "=0.16.4"

[dev-dependencies]
tempfile = "=3.27.0"
