[package]
name = "xunit_report"
version = "0.1.0"
edition = "2021"
publish = false

[dependencies]
chrono = { version = "0.4", default-features = false, features = ["std"] }
serde = { version = "1", features = ["derive"] }
serde_derive = "1"
serde-xml-rs = "0.4"
thiserror = "1"
