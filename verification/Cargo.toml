[package]
name = "text-embeddings-backend-python"
version = "0.1.0"
edition = "2021"
publish = false

[dependencies]
nohash-hasher = "0.2.0"
