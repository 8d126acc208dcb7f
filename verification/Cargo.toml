[package]
name = "momento_proxy"
version = "0.1.0"
edition = "2021"
publish = false

[dependencies]
async-trait = "=0.1.92"
backtrace = "=0.3.76"
clap = "=4.6.7"
foyer = { version = "=0.17.4", features = ["serde"] }
futures = "=0.3.34"
goodmetrics = "=7.1.7"
metriken = "0.7"
moka = { version = "=0.12.16", features = ["sync", "future"] }
momento = "=0.69.0"
pelikan-net = { version = "=0.5.0", features = ["metrics"] }
serde = { version = "=1.0.229", features = ["derive"] }
socket2 = "=0.5.10"
tokio = { version = "=1.54.1", features = ["full"] }
tokio-rustls = "=0.26.6"
toml = "=1.1.8"
tonic = "=0.13.1"
webpki-roots = "=1.0.11"
