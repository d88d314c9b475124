[package]
name = "ascii_wanderer"
version = "0.1.0"
edition = "2021"
publish = false

[dependencies]
rand = "=0.8.8"
slab = "=0.4.12"
yew = { version = "=0.20.0", features = ["csr"] }
yew-utils = "=0.3.0"
gloo = "=0.8.1"
gloo-utils = "=0.1.7"
web-sys = { version = "=0.3.107", features = ["Element", "HtmlElement", "Document", "DomRect", "Node", "CustomEvent", "KeyboardEvent", "MouseEvent"] }
