[package]
name = "vector_lowering"
version = "0.1.0"
edition = "2021"
publish = false

[dependencies]
xmlparser = "0.13"
flate2 = "1"
ttf-parser = "*"
once_cell = "1"
clap = { version = "4", features = ["derive", "env"] }
clap_complete = "4"
wasm-bindgen = "0.2"
js-sys = "0.3"
web-sys = { version = "0.3", features = ["console"] }
serde_json = "1"
typst = "*"
