[package]
name = "h5swmr"
version = "0.1.0"
edition = "2021"
publish = false

[dependencies]
anyhow = "1"
clap = { version = "4", features = ["derive", "env"] }
clap_complete = "4"
hdf5 = "0.8"
hdf5-sys = "0.8"
log = "0.4"
ndarray = "0.15"
num-traits = "0.2"
plotly = "*"
plotters = { version = "0.3", default-features = false, features = ["bitmap_backend", "bitmap_encoder", "svg_backend", "line_series"] }
serde = { version = "1", features = ["derive"] }
stderrlog = "0.6"
termcolor = "1"
