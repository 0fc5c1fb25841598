[package]
name = "todomvc"
version = "0.1.0"
edition = "2021"
publish = false

[dependencies]
uuid = { version = "1", features = ["v4", "serde"] }
serde = { version = "1", features = ["derive"] }
serde_json = "1"
axum = "0.8"
tokio = { version = "1", features = ["macros", "rt-multi-thread", "net"] }
sqlx = { version = "0.8", default-features = false, features = ["runtime-tokio", "postgres", "uuid", "chrono", "migrate"] }
chrono = { version = "0.4", default-features = false, features = ["clock", "serde", "std"] }
dotenvy = "0.15"
tracing = "0.1"
tracing-subscriber = { version = "0.3", features = ["env-filter", "fmt"] }
tower-http = { version = "0.6", features = ["cors", "fs"] }
leptos = { version = "0.8", features = ["csr"] }
gloo-net = { version = "0.6", default-features = false, features = ["http", "json"] }
wasm-bindgen = "0.2"
web-sys = { version = "0.3", features = ["Window", "Location", "Event"] }
