[package]
name = "geoparquet2geoarrow"
version = "0.1.0"
edition = "2021"
publish = false

[dependencies]
geoarrow = "=0.9.0"
arrow-array = "=59.3.0"
arrow-schema = "=59.3.0"
arrow-data = "=59.3.0"
arrow-ipc = "=59.3.0"
parquet = { version = "=59.3.0", default-features = false, features = ["arrow"] }
bytes = "=1.12.1"
serde = "=1.0.229"
serde_json = "=1.0.151"
wasm-bindgen = "=0.2.129"
