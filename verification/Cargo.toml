[package]
name = "one_shot_channel"
version = "0.1.0"
edition = "2021"
publish = false

[dependencies]
tokio = { version = "1", features = ["macros", "rt", "rt-multi-thread", "time"] }
mio = { version = "1", features = ["os-poll", "net"] }
