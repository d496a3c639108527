[package]
name = "iced_command_runner"
version = "0.1.0"
edition = "2021"
publish = false

[dependencies]
iced = { version = "=0.14.0", default-features = false, features = ["tokio", "tiny-skia", "x11"] }
iced_core = "=0.14.0"
iced_widget = "=0.14.2"
log = "=0.4.35"
tokio = { version = "=1.54.1", features = ["process", "io-util", "macros", "rt", "rt-multi-thread"] }
