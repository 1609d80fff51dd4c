[package]
name = "chart_resolver"
version = "0.1.0"
edition = "2021"
publish = false

[dependencies]
lc-render = "*"
tonic = "0.4"
prost = "0.7"
tokio = { version = "1", features = ["macros", "rt-multi-thread"] }
tonic-health = "0.3"
http = "0.2"
slog = "2"
slog-async = "2"
slog-json = "2"
chrono = "0.4"
