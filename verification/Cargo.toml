[package]
name = "dashbook_catalog"
version = "0.1.0"
edition = "2021"
publish = false

[dependencies]
base64-url = "=3.0.4"
serde_json = "=1.0.151"
serde = { version = "=1.0.229", features = ["derive"] }
thiserror = "=2.0.21"
reqwest = { version = "=0.13.5", default-features = false, features = ["json", "query"] }
aws-config = { version = "=1.12.0", default-features = false }
aws-sdk-sts = { version = "=1.119.0", default-features = false }
object_store = { version = "=0.14.2", default-features = false, features = ["aws"] }
