[package]
name = "citymesh"
version = "0.1.0"
edition = "2021"
publish = false

[dependencies]
clap = { version = "4", features = ["derive"] }
earcut = "0.4"
ecitygml = "0.0.2-alpha.7"
ecitygml-core = "0.0.2-alpha.7"
ecitygml-io = "0.0.2-alpha.7"
egml = "0.0.2-alpha.7"
rayon = "1"
serde = { version = "1", features = ["derive"] }
serde_json = "1"
