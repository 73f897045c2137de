[package]
name = "remote_wol"
version = "0.1.0"
edition = "2021"
publish = false

[dependencies]
anyhow = "=1.0.104"
axum = "=0.6.20"
clap = { version = "=4.6.7", features = ["derive"] }
dotenvy = "=0.15.7"
fastrand = "=2.5.0"
leptos = { version = "=0.2.5", default-features = false, features = ["serde", "ssr", "stable"] }
leptos_axum = "=0.2.5"
leptos_meta = { version = "=0.2.5", default-features = false, features = ["ssr", "stable"] }
leptos_router = { version = "=0.2.5", default-features = false, features = ["ssr", "stable"] }
mime_guess = "=2.0.5"
once_cell = "=1.21.4"
rust-embed = "=8.13.0"
serde = { version = "=1.0.229", features = ["derive"] }
surge-ping = "=0.8.4"
tokio = { version = "=1.54.1", features = ["macros", "rt-multi-thread"] }
tower = { version = "=0.4.13", features = ["buffer", "limit"] }
tracing = "=0.1.44"
wol-rs = "=1.1.0"
