[package]
name = "texquery"
version = "0.1.0"
edition = "2021"
publish = false

[dependencies]
cancellation = "*"
regex = "*"
rustc-hash = "*"
lsp-types = "*"
log = "*"
serde = { version = "*", features = ["derive"] }
serde_repr = "*"
typed-builder = "*"
