[package]
name = "powers_of_tau"
version = "0.1.0"
edition = "2021"
publish = false

[dependencies]
ark-ec = "0.4"
ark-ff = "0.4"
ark-mnt6-753 = "0.4"
ark-serialize = { version = "0.4", features = ["derive"] }
ark-std = "0.4"
blake2 = "0.10"
generic-array = "0.14"
num_cpus = "1"
num-traits = "0.2"
rand = "0.8"
rand_chacha = "0.3"
rayon = "1"
typenum = "1"
