[package]
name = "form_dispatch"
version = "0.1.0"
edition = "2021"
publish = false

[dependencies]
axum = "0.7"
dioxus = { version = "0.6", features = ["fullstack", "router", "server"] }
tokio = { version = "1", features = ["macros", "net", "rt-multi-thread", "time"] }
