[package]
name = "pevm"
version = "0.1.0"
edition = "2021"
publish = false

[dependencies]
alloy-consensus = { version = "*", default-features = false, features = ["std"] }
alloy-eip2930 = { version = "*", default-features = false, features = ["std"] }
alloy-eip7702 = { version = "*", default-features = false, features = ["std"] }
alloy-primitives = { version = "*", default-features = false, features = ["std"] }
alloy-rpc-types-eth = { version = "*", default-features = false, features = ["std"] }
revm = { version = "*", default-features = false, features = ["std"] }
