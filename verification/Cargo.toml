[package]
name = "signal_wasm"
version = "0.6.5"
edition = "2021"
publish = false

[dependencies]
uuid = { version = "1", features = ["v4"] }
getrandom = "0.3"
rand = "0.9"
subtle = "2"
zeroize = "1"
futures = "0.3"
wasm-bindgen = "0.2"
js-sys = "0.3"
web-sys = { version = "0.3", features = ["console"] }
console_error_panic_hook = "0.1"
