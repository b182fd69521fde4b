[package]
name = "pru_rproc_user"
version = "0.1.0"
edition = "2021"
publish = false

[dependencies]
libc = "*"
memmap2 = "*"
tokio = { version = "*", features = ["net", "time", "rt"] }
