[package]
name = "mongo_cache_proxy"
version = "0.1.0"
edition = "2021"
publish = false

[dependencies]
bson = "2"
byteorder = "1"
chrono = "0.4"
mongodb = { version = "2", features = ["tokio-sync"] }
redis = "*"
rustls = "0.22"
serde_json = "1"
threadpool = "1"
trust-dns-resolver = "0.23"
webpki-roots = "0.26"
