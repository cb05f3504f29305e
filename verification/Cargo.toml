[package]
name = "pdf_writer"
version = "0.1.0"
edition = "2021"
publish = false

[dependencies]
bitflags = "2"
itoa = "1"
ryu = "1"
