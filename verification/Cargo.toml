[package]
name = "bgpkit_parser_dump"
version = "0.1.0"
edition = "2021"
publish = false

[dependencies]
bgp-models = "=0.7.0"
byteorder = "=1.5.0"
ipnetwork = "=0.18.0"
num-traits = "=0.2.19"
thiserror = "=1.0.69"

[dev-dependencies]
bgpkit-parser = { version = "=0.23.0", default-features = false, features = ["parser"] }
