[package]
name = "brainfuck-benchmark"
version = "0.1.0"
edition = "2021"
publish = false

[dependencies]
cfg-if = "*"
glob = "0.3"
itertools = "*"
path-dsl = "*"
regex = "1"
structopt = "0.3"
