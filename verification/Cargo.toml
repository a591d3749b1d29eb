[package]
name = "rnote-ui"
version = "0.1.0"
edition = "2021"
publish = false

[dependencies]
time = { version = "0.3", features = ["formatting"] }
anyhow = "1"
log = "0.4"
gettext-rs = "0.7"
pretty_env_logger = "0.4"
same-file = "1"
gtk4 = "0.6"
libadwaita = "0.3"
