[package]
name = "cairo_lint_core"
version = "0.1.0"
edition = "2021"
publish = false

[dependencies]
cairo-lang-compiler = "=2.20.0"
cairo-lang-defs = "=2.20.0"
cairo-lang-diagnostics = "=2.20.0"
cairo-lang-filesystem = "=2.20.0"
cairo-lang-semantic = "=2.20.0"
cairo-lang-syntax = "=2.20.0"
cairo-lang-utils = "=2.20.0"
log = "=0.4.34"
salsa = "=0.27.2"
