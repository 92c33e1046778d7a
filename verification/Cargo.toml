[package]
name = "mpris_widget"
version = "0.1.0"
edition = "2021"
publish = false

[dependencies]
crossbeam-channel = "0.5"
ctrlc = "3"
envmnt = "0.10"
tokio = { version = "1", default-features = false, features = ["macros", "rt-multi-thread", "time"] }
