[package]
name = "viviendas"
version = "0.1.0"
edition = "2021"
publish = false

[dependencies]
csv = "1"
diesel = { version = "2", features = ["sqlite"] }
dotenv = "0.15"
fltk = "1"
fltk-table = "*"
