[package]
name = "arduino_compile_sketches"
version = "0.1.0"
edition = "2021"
publish = false

[dependencies]
arduino-report-size-deltas = "*"
clap = { version = "4", features = ["derive", "env"] }
colored = "*"
directories = "*"
flate2 = "*"
log = "*"
reqwest = { version = "0.12", default-features = false, features = ["rustls-tls"] }
serde = { version = "1", features = ["derive"] }
serde_json = "1"
serde-saphyr = "*"
tar = "*"
tempfile = "3"
thiserror = "*"
tokio = { version = "1", features = ["macros", "rt-multi-thread"] }
url = "2"
zip = { version = "*", default-features = false, features = ["deflate"] }
