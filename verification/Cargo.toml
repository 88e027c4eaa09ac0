[package]
name = "win_lookaside"
version = "0.1.0"
edition = "2021"
publish = false

[dependencies]
spin = "0.9"
windows-sys = { version = "0.52", features = ["Wdk_Foundation", "Win32_Foundation"] }
