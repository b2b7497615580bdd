[package]
name = "corematch"
version = "0.1.0"
edition = "2021"
publish = false

[dependencies]
sp-core-hashing = "16.0.0"
rand = "0.8"
yew = { version = "0.21", features = ["csr"] }
yew-router = "0.18"
gloo = { version = "0.10", default-features = false, features = ["timers", "events"] }
wasm-bindgen = "0.2"
wasm-bindgen-futures = "0.4"
wasm-logger = "0.2"
web-sys = { version = "0.3", features = ["Window", "Document", "Element", "HtmlElement", "KeyboardEvent", "Navigator", "Clipboard"] }
js-sys = "0.3"
log = "0.4"
futures = "0.3"
anyhow = "1"
subxt = { version = "0.37", default-features = false, features = ["jsonrpsee", "web"] }
serde = { version = "1", features = ["derive"] }
serde_json = "1"
hex = "0.4"
thiserror = "1"
