[package]
name = "preproc"
version = "0.1.0"
edition = "2021"
publish = false

[dependencies]
clap = "3"
mdbook = { version = "=0.4.36", default-features = false }
pulldown-cmark = { version = "0.9", default-features = false }
pulldown-cmark-to-cmark = "10"
serde_json = "1"
