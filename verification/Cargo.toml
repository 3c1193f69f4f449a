[package]
name = "komac"
version = "0.1.0"
edition = "2021"
publish = false

[dependencies]
base16ct = { version = "=0.2.0", features = ["alloc"] }
clap = { version = "=4.6.7", features = ["cargo"] }
color-eyre = "=0.6.5"
futures-util = "=0.3.34"
indicatif = "=0.17.11"
itertools = "=0.13.0"
memmap2 = "=0.9.12"
num_cpus = "=1.17.0"
object = { version = "=0.36.7", default-features = false, features = ["read_core", "pe", "unaligned"] }
quick-xml = { version = "=0.36.2", features = ["serialize"] }
rand = "=0.8.8"
reqwest = { version = "=0.12.28", default-features = false, features = ["stream"] }
serde = { version = "=1.0.229", features = ["derive"] }
sha2 = "=0.10.9"
tempfile = "=3.27.0"
time = { version = "=0.3.55", features = ["parsing"] }
tokio = { version = "=1.54.1", features = ["fs", "io-util", "rt"] }
uuid = { version = "=1.29.0", features = ["v4"] }
