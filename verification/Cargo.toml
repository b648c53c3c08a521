[package]
name = "goat_dashboard"
version = "0.1.0"
edition = "2021"
publish = false

[dependencies]
serde = { version = "*", features = ["derive"] }
serde_json = "*"
thiserror = "*"
log = "*"
gloo-net = "*"
wasm-bindgen-futures = "*"
wasm-logger = "*"
web-sys = { version = "*", features = ["Event", "EventTarget", "Element", "HtmlElement", "HtmlInputElement", "HtmlSelectElement"] }
yew = { version = "*", features = ["csr"] }
yewdux = "*"
