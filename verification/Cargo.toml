[package]
name = "web_browser"
version = "0.1.0"
edition = "2021"
publish = false

[dependencies]
boa_engine = "=0.19.1"
boa_gc = "=0.19.1"
boa_runtime = "=0.19.1"
scraper = { version = "=0.19.1", features = ["deterministic"] }
serde_json = "=1.0.154"
num_cpus = "=1.17.0"
sys-locale = "=0.3.2"
wl-clipboard-rs = "=0.8.2"
clipboard = "=0.5.0"
reqwest = { version = "=0.12.28", default-features = false, features = ["blocking"] }
