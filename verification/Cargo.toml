[package]
name = "gain_plugin"
version = "0.1.0"
edition = "2021"
publish = false

[dependencies]
ringbuf = "0.2"
vst = "0.2"
log = "0.4"
simplelog = "*"
dirs = "*"
raw-window-handle = "*"
egui = "*"
baseview = "*"
egui-baseview = "*"
