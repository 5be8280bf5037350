[package]
name = "pdfbench"
version = "0.1.0"
edition = "2021"
publish = false

[dependencies]
lopdf = "*"
pdf-extract = "*"
pdfium-render = "*"
poppler-rs = "*"
