[package]
name = "asimov-readwise-module"
version = "0.1.0"
edition = "2021"
publish = false

[dependencies]
anyhow = "=1.0.104"
# Named only to hold it at the release of asimov-module: asimov-module asks
# for any asimov-core from 25.1.0 on, and the later ones need a newer
# compiler than the rest of this crate does.
asimov-core = "=25.1.0"
asimov-module = "=25.1.0"
clap = { version = "=4.6.7", features = ["derive"] }
clientele = "=0.3.14"
serde = { version = "=1.0.229", features = ["derive"] }
serde_json = "=1.0.154"
ureq = "=3.5.0"
