[package]
name = "file_processor"
version = "0.1.0"
edition = "2021"
publish = false

[dependencies]
csv = "=1.4.0"
docx-rs = "=0.4.22"
encoding_rs = "=0.8.44"
pdf-extract = "=0.12.1"
serde = { version = "=1.0.229", features = ["derive"] }
thiserror = "=1.0.69"
log = "=0.4.35"
