[package]
name = "regolith_displayd"
version = "0.1.0"
edition = "2021"
publish = false

[dependencies]
lazy_static = "1"
log = "0.4"
pretty_env_logger = "0.5"
serde = { version = "1", features = ["derive"] }
swayipc-async = "2"
tokio = { version = "1", features = ["full"] }
trawlcat = "*"
wayland-client = "0.31"
wayland-protocols-wlr = { version = "0.3", features = ["client"] }
zbus = { version = "3", default-features = false, features = ["tokio"] }
zvariant = "3"
