[package]
name = "compiler"
version = "0.1.0"
edition = "2021"
publish = false

[dependencies]
anyhow = "=1.0.104"
tokio = { version = "=1.54.1", features = ["io-std", "macros", "rt-multi-thread"] }
tower-lsp = "=0.20.0"
wasm-encoder = "=0.262.0"
wasmtime = { version = "=46.0.3", default-features = false, features = ["cranelift", "runtime", "wat", "std"] }

[dev-dependencies]
nom = "=7.1.3"
