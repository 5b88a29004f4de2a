[package]
name = "swc_plugin_mockify"
version = "0.1.0"
edition = "2021"
publish = false

[dependencies]
camino = "=1.1.9"
lazy_static = "=1.5.1"
pathdiff = "=0.2.3"
regex = "=1.13.1"
semver = "=1.0.26"
serde = { version = "=1.0.219", features = ["derive"] }
serde_json = "=1.0.140"
serde_regex = "=1.2.0"
swc_core = { version = "=0.90.37", features = ["ecma_plugin_transform"] }
