[package]
name = "weirdboi_bevy_colour"
version = "0.1.0"
edition = "2021"
publish = false

[dependencies]
bevy_color = "*"
egui = "*"
proc-macro2 = "*"
quote = "*"
syn = "*"
thiserror = "*"
