[package]
name = "wasmtime_oc"
version = "0.1.0"
edition = "2021"
publish = false
rust-version = "1.95"

[dependencies]
anyhow = "=1.0.104"
bincode = { version = "=2.0.1", features = ["serde"] }
lz4_flex = "=0.11.6"
serde = { version = "=1.0.229", features = ["derive"] }
sha2 = "=0.10.9"
wasmtime = { version = "=47.0.4", default-features = false, features = ["cranelift", "gc", "gc-drc", "pulley", "runtime", "std", "wat"] }
