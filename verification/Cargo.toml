[package]
name = "pwa_client"
version = "0.1.0"
edition = "2021"
publish = false

[dependencies]
js-sys = "0.3"
log = "0.4"
wasm-bindgen = "0.2"
wasm-bindgen-futures = "0.4"
web-sys = { version = "0.3", default-features = false, features = [
    "Clipboard",
    "ConnectionType",
    "Document",
    "Element",
    "Geolocation",
    "Navigator",
    "NetworkInformation",
    "Permissions",
    "PermissionStatus",
    "VisibilityState",
    "Window",
    "console",
] }
