[package]
name = "egui_extended"
version = "0.1.0"
edition = "2021"
publish = false

[dependencies]
egui = "0.22"
dark-light = "1"
lightningcss = "1.0.0-alpha.39"
