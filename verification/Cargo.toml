[package]
name = "winit_wgpu_egui"
version = "0.1.0"
edition = "2021"
publish = false

[dependencies]
egui = "0.26"
egui-wgpu = { version = "0.26", default-features = false }
wgpu = { version = "0.19", default-features = false }
