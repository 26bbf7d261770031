[package]
name = "iced_layer"
version = "0.1.0"
edition = "2021"
publish = false

[dependencies]
iced_runtime = "=0.1.1"
smithay-client-toolkit = "=0.18.1"
raw-window-handle = "=0.5.2"
anyhow = "1"
futures = "0.3"
tracing = "0.1"
tracing-subscriber = { version = "0.3", features = ["env-filter"] }

[dev-dependencies]
xkeysym = "0.2"
