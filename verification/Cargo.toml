[package]
name = "llql"
version = "0.1.0"
edition = "2021"
publish = false

[dependencies]
gitql-ast = "=0.39.0"
gitql-core = "=0.20.0"
gitql-engine = "=0.43.0"
gitql-parser = "=0.42.0"
gitql-cli = "=0.43.0"
gitql-std = "=0.20.0"
inkwell = { version = "=0.10.0", features = ["llvm14-0"] }
llvm-sys = { version = "=140.1.3", features = ["prefer-dynamic"] }
