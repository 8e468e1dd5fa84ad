[package]
name = "pixly_kernel"
version = "0.1.0"
edition = "2021"
publish = false

[dependencies]
md5 = "*"
regex = "*"
which = "*"
num_cpus = "*"
infer = "*"
serde = { version = "*", features = ["derive"] }
serde_json = "*"
thiserror = "*"
anyhow = "*"
image = { version = "*", default-features = false, features = ["png", "jpeg", "gif", "webp"] }
