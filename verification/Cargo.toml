[package]
name = "billgen"
version = "0.1.0"
edition = "2021"
publish = false

[dependencies]
iban_validate = "=5.0.1"
chrono = "=0.4.45"
dirs = "=7.0.0"
typst = "=0.15.1"
typst-layout = "=0.15.1"
typst-pdf = "=0.15.1"
typst-kit = { version = "=0.15.1", features = ["scan-fonts"] }

[dev-dependencies]
iso_11649 = "=0.1.2"
text_placeholder = "=0.5.1"
