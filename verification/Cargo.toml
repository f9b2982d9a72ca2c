[package]
name = "yggdrasil_ir"
version = "0.1.0"
edition = "2021"
publish = false

[dependencies]
indexmap = "2"
pest = "2"
convert_case = "*"
regex-automata = "0.4"
character-set = "*"
url = "2"
num = "0.4"
serde = { version = "1", features = ["derive"] }
lsp-types = "*"
