[package]
name = "atomic_search"
version = "0.1.0"
edition = "2021"
publish = false

[dependencies]
actix-web = "=4.18.1"
atomic_lib = { version = "=0.40.0", features = ["db"] }
serde = { version = "=1.0.229", features = ["derive"] }
tantivy = "=0.27.0"
