[package]
name = "mdviewer"
version = "0.1.0"
edition = "2021"
publish = false

[dependencies]
chrono = { version = "0.4", default-features = false, features = ["clock"] }
clap = { version = "4", features = ["derive"] }
directories = "6"
fern = "0.7"
log = "0.4"
notify = { version = "=8.2.1", default-features = false }
pulldown-cmark = { version = "=0.13.5", default-features = false, features = ["html"] }
rfd = "0.17"
thiserror = "2"
tokio = { version = "1", features = ["fs", "io-util"] }
