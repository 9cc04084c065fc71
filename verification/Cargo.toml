[package]
name = "rusttesserast"
version = "0.0.2"
edition = "2021"
publish = false

[dependencies]
either = "1"
futures = "0.3"
tesseract-plumbing = "*"
tokio = { version = "1", features = ["macros", "rt-multi-thread"] }

[dev-dependencies]
glob = "0.3"
