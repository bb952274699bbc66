[package]
name = "geojsonseq"
version = "0.1.0"
edition = "2021"
publish = false

[dependencies]
geojson = "=0.24.2"
jsonseq = "=0.1.1"
serde_json = "=1.0.151"
thiserror = "=1.0.69"
