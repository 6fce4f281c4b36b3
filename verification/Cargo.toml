[package]
name = "scratch_reveal"
version = "0.1.0"
edition = "2021"
publish = false

[dependencies]
wasm-bindgen = "*"
web-sys = { version = "*", features = ["Window", "Document", "Element", "HtmlElement", "MouseEvent", "DomRect", "Event", "EventTarget", "Node"] }
gloo = { version = "*", default-features = false, features = ["events", "console"] }
console_error_panic_hook = "*"
