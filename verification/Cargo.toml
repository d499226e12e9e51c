[package]
name = "lx"
version = "1.0.0"
edition = "2021"
publish = false

[dependencies]
anyhow = "1"
axum = { version = "*", features = ["ws"] }
camino = "1"
chrono = { version = "0.4", features = ["serde"] }
clap = { version = "4", features = ["derive"] }
count-md = "*"
futures = "0.3"
glob = "*"
lightningcss = { version = "=1.0.0-alpha.72", default-features = false, features = ["bundler"] }
log = "0.4"
minijinja = "*"
nanohtml2text = "*"
normalize-path = "*"
notify = "*"
notify-debouncer-full = "*"
pulldown-cmark = "*"
rayon = "1"
serde = { version = "1", features = ["derive"] }
serde_json = "1"
serde_yaml = "*"
simplelog = "*"
slug = "*"
thiserror = "*"
tokio = { version = "1", features = ["rt-multi-thread", "sync", "net", "macros", "time"] }
tower-http = { version = "*", features = ["fs"] }
uuid = { version = "1", features = ["v5"] }
