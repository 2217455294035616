[package]
name = "mapnav"
version = "0.1.0"
edition = "2021"
publish = false

[dependencies]
egui = { version = "0.29", default-features = false }
geo-types = "0.7"
