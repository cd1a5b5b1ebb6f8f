[package]
name = "lapi_client"
version = "0.1.0"
edition = "2021"
publish = false

[dependencies]
reqwest = { version = "=0.13.5", default-features = false, features = ["json"] }
http = "=1.5.0"
time = { version = "=0.3.55", features = ["parsing", "formatting", "local-offset", "macros"] }
serde = { version = "*", features = ["derive"] }
serde_json = "=1.0.151"
tokio = { version = "*", features = ["rt-multi-thread", "macros", "time"] }
futures = "*"
async-stream = "*"
color-eyre = "*"
once_cell = "*"
tracing = "*"
tracing-error = "*"
tracing-subscriber = { version = "*", features = ["env-filter", "fmt", "time"] }
