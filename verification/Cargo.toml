[package]
name = "clap_host"
version = "0.1.0"
edition = "2021"
publish = false

[dependencies]
rtrb = "=0.4.0"
clack-host = "=0.2.0"
clack-extensions = { version = "=0.2.0", features = ["clack-host", "log", "params"] }
cpal = "=0.18.2"
