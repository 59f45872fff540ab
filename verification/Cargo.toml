[package]
name = "rmd"
version = "0.1.0"
edition = "2021"
publish = false

[dependencies]
tiny-keccak = { version = "*", features = ["sha3"] }
pulldown-cmark = "*"
clap = { version = "*", features = ["cargo"] }
gtk = "*"
gdk = "*"
sourceview = "*"
webkit2gtk = "*"
