[package]
name = "workflow_nw"
version = "0.1.0"
edition = "2021"
publish = false

[dependencies]
wasm-bindgen = "*"
js-sys = "*"
nw-sys = "*"
web-sys = { version = "*", features = ["Document", "EventTarget", "HtmlElement", "MediaDevices", "MediaStream", "MediaStreamConstraints", "MediaStreamTrack", "MouseEvent", "Navigator", "Window"] }
