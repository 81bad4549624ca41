[package]
name = "ugly_duckling"
version = "0.1.0"
edition = "2021"
publish = false

[dependencies]
anyhow = "=1.0.104"
embassy-executor = { version = "=0.6.3", features = ["arch-std", "executor-thread"] }
embassy-futures = "=0.1.2"
embassy-sync = "=0.6.2"
embassy-time = "=0.3.2"
embedded-svc = "=0.28.1"
esp-idf-hal = "0.45"
esp-idf-svc = "0.51"
esp-idf-sys = "0.36"
heapless = "=0.8.0"
log = "=0.4.35"
serde = { version = "=1.0.229", features = ["derive"] }
serde_json = "=1.0.154"
static_cell = "=2.1.1"
