[package]
name = "global_search"
version = "0.1.0"
edition = "2021"
publish = false

[dependencies]
actix = { version = "=0.13.5", default-features = false }
actix-files = { version = "0.6", default-features = false }
actix-web = { version = "=4.18.1", default-features = false }
elasticlunr-rs = { version = "=3.1.0", default-features = false }
env_logger = { version = "=0.11.11", default-features = false }
error-chain = { version = "=0.12.4", default-features = false }
futures = "=0.3.34"
log = "=0.4.34"
mdbook = { version = "=0.4.52", default-features = false, features = ["search"] }
serde = "=1.0.229"
serde_json = "=1.0.154"
tantivy = { version = "=0.22.1", default-features = false, features = ["mmap", "stopwords", "lz4-compression"] }
