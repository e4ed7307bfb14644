[package]
name = "tint"
version = "0.1.0"
edition = "2021"
publish = false

[dependencies]
ark-bn254 = "=0.6.0"
ark-ff = "=0.6.0"
ark-relations = "=0.6.0"
serde = { version = "=1.0.229", features = ["derive"] }
postcard = { version = "=1.1.3", features = ["alloc"] }
async-trait = "=0.1.92"
thiserror = "=2.0.21"
tracing = "=0.1.44"
alloy-primitives = "=1.7.3"
alloy-sol-types = "=1.7.3"
ark-ec = "=0.6.0"
ark-groth16 = "=0.6.0"
