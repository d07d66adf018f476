[package]
name = "track_pipeline"
version = "0.1.0"
edition = "2021"
publish = false

[dependencies]
id3 = "=0.6.6"
librespot = { version = "=0.4.2", default-features = false }
tokio = { version = "1", features = ["macros", "rt-multi-thread"] }
futures = "0.3"
rspotify = { version = "0.13", default-features = false, features = ["client-reqwest", "reqwest-rustls-tls"] }
reqwest = { version = "0.11", default-features = false, features = ["rustls-tls"] }
tiny_http = "0.12"
dirs = "6"
read-human = "0.1"
