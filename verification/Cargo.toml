[package]
name = "math_quiz"
version = "0.1.0"
edition = "2021"
publish = false

[dependencies]
yew = { version = "*", features = ["csr"] }
gloo-net = "*"
js-sys = "*"
web-sys = { version = "*", features = ["Window", "HtmlInputElement", "console"] }
wasm-bindgen-futures = "*"
serde = { version = "*", features = ["derive"] }
