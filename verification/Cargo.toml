[package]
name = "spwn-lang"
version = "0.1.0"
edition = "2021"
publish = false

[dependencies]
pest = "2.1"
pest_derive = "2.1"
