[package]
name = "object_model"
version = "0.1.0"
edition = "2021"
publish = false

[dependencies]
gc = "0.5"
gc_derive = "0.5"
indexmap = "2"
nom = "4"
