[package]
name = "ranged_reader"
version = "0.1.0"
edition = "2021"
publish = false

[dependencies]
arbitrary = "=1.5.0"
uuid = { version = "=1.29.0", features = ["v4"] }
opendal = { version = "=0.44.2", default-features = false, features = ["tests", "services-memory"] }
libfuzzer-sys = "=0.4.13"
tracing-subscriber = { version = "=0.3.23", features = ["env-filter"] }
tokio = { version = "=1.54.1", features = ["rt-multi-thread"] }
