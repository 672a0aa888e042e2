[package]
name = "black_hole_sim"
version = "0.1.0"
edition = "2021"
publish = false
