[package]
name = "quiche4j_jni"
version = "0.1.0"
edition = "2021"
publish = false

[dependencies]
quiche = { version = "*", default-features = false }
jni = "0.21"
env_logger = "*"
