[package]
name = "containerd-shim-spin"
version = "0.1.0"
edition = "2021"
publish = false

[dependencies]
anyhow = "=1.0.104"
containerd-shim-wasm = "=1.0.1"
ctrlc = "=3.5.2"
futures = "=0.3.34"
log = "=0.4.34"
oci-spec = "=0.9.0"
tokio = { version = "=1.54.1", features = ["rt", "macros", "fs"] }
wasmtime = { version = "=36.0.19", default-features = false, features = ["runtime", "cranelift", "component-model", "std", "wat"] }
