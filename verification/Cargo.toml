[package]
name = "jni_utils"
version = "0.1.0"
edition = "2021"
publish = false

[dependencies]
futures = "=0.3.34"
jni = "0.19"
static_assertions = "=1.1.0"
uuid = "1"
