[package]
name = "server"
version = "0.1.0"
edition = "2021"
publish = false

[dependencies]
serde_json = "1"
serde = { version = "1", features = ["derive"] }
axum = "0.5"
tokio = { version = "1", features = ["full"] }
sqlx = { version = "0.6", default-features = false, features = ["runtime-tokio-rustls", "postgres", "uuid", "chrono", "migrate"] }
clap = { version = "3", features = ["derive"] }
config = "0.13"
secrecy = "0.8"
tower = "0.4"
tower-http = { version = "0.3", features = ["fs", "trace", "request-id", "util"] }
tracing = "0.1"
uuid = { version = "1", features = ["v4"] }
chrono = "0.4"
yew = "0.19"
wasm-bindgen = "0.2"
