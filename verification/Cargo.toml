[package]
name = "dynamic_launcher"
version = "0.0.1"
edition = "2021"
publish = false

[dependencies]
anyhow = "=1.0.104"
command-fds = "=0.3.3"
futures = "=0.3.34"
gio-unix = "=0.22.8"
gtk4 = "=0.11.5"
listen-fds = "=0.1.0"
memfd = "=0.6.6"
serde = { version = "=1.0.229", features = ["derive"] }
serde_json = "=1.0.154"
tokio = { version = "=1.54.1", features = ["full"] }
uuid = { version = "=1.29.0", features = ["v4"] }
zlink = { version = "=0.5.0", features = ["introspection"] }
