[package]
name = "celestia_blob_client"
version = "0.1.0"
edition = "2021"
publish = false

[dependencies]
celestia-rpc = "=1.3.0"
celestia-types = "=1.3.0"
clap = { version = "=4.6.7", features = ["derive", "env"] }
futures-util = "=0.3.34"
tokio = { version = "=1.54.1", features = ["macros", "rt-multi-thread"] }
