[package]
name = "can_flasher"
version = "0.1.0"
edition = "2021"
publish = false

[dependencies]
object = "0.36"
tokio = { version = "1", features = ["time"] }

[dev-dependencies]
object = { version = "0.36", features = ["write"] }
