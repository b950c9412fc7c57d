[package]
name = "mvts"
version = "0.1.0"
edition = "2021"
publish = false

[dependencies]
axum = "=0.8.9"
duckdb = { version = "=1.4.5", features = ["vscalar", "vtab-arrow", "loadable-extension"] }
duckdb-loadable-macros = "=0.1.15"
libduckdb-sys = { version = "=1.4.5", features = ["loadable-extension"] }
log = "=0.4.35"
once_cell = "=1.21.4"
serde = { version = "=1.0.229", features = ["derive"] }
serde_json = "=1.0.154"
simplelog = "=0.12.2"
tera = { version = "=1.20.1", default-features = false }
tokio = { version = "=1.54.1", features = ["rt-multi-thread", "net", "sync", "macros"] }
tower = { version = "=0.5.3", features = ["limit"] }
