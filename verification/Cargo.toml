[package]
name = "dlp_sync"
version = "0.1.0"
edition = "2021"
publish = false

[dependencies]
helius-laserstream = { version = "*", default-features = false }
tokio = { version = "1", default-features = false, features = ["sync", "rt", "macros", "time"] }
futures = { version = "0.3", default-features = false, features = ["std"] }
tracing = { version = "0.1", default-features = false, features = ["std"] }

[dev-dependencies]
bs58 = "0.5"
