[package]
name = "ocaml_interop"
version = "0.1.0"
edition = "2021"
publish = false

[dependencies]
ocaml-sys = { version = "=0.26.0", features = ["without-ocamlopt", "ocaml5"] }
proc-macro2 = "=1.0.107"
heck = "0.5"
