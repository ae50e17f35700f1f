[package]
name = "bastion"
version = "0.1.0"
edition = "2021"
publish = false

[dependencies]
futures = { version = "=0.3.34", features = ["compat"] }
qutex = "=0.2.6"
lightproc = "=0.3.5"
