[package]
name = "admin_instructions"
version = "0.1.0"
edition = "2021"
publish = false
