[package]
name = "wallet_engine"
version = "0.1.0"
edition = "2021"
publish = false

[dependencies]
anyhow = "=1.0.104"
bdk = { version = "=0.28.2", default-features = false, features = ["std", "keys-bip39", "use-esplora-async", "async-interface"] }
leptos = { version = "=0.5.7", features = ["ssr"] }
leptos_meta = { version = "=0.5.7", features = ["ssr"] }
leptos_router = { version = "=0.5.7", features = ["ssr"] }
serde = { version = "=1.0.229", features = ["derive"] }
serde_json = "=1.0.154"
tracing = "=0.1.44"
