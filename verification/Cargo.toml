[package]
name = "minidump_bridge"
version = "0.1.0"
edition = "2021"
publish = false

[dependencies]
minidump = "=0.27.0"
minidump-common = "=0.27.0"
minidump-processor = "=0.27.0"
minidump-unwind = { version = "=0.27.0", features = ["http"] }
breakpad-symbols = { version = "=0.27.0", features = ["http"] }
memmap2 = "=0.9.11"
neon = "=1.1.2"
once_cell = "=1.21.4"
tokio = { version = "=1.53.2", features = ["rt-multi-thread"] }

[dev-dependencies]
minidump-synth = "=0.27.0"
test-assembler = "=0.1.6"
