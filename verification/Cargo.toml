[package]
name = "ws63-hal"
version = "0.1.0"
edition = "2021"
publish = false

[dependencies]
critical-section = "1"
embedded-hal = "1"
