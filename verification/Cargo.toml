[package]
name = "ts_transpiler"
version = "0.1.0"
edition = "2021"
publish = false

[dependencies]
swc_common = { version = "*", features = ["tty-emitter"] }
swc_core = { version = "*", features = ["common", "ecma_ast", "ecma_codegen", "ecma_parser", "ecma_parser_typescript", "ecma_transforms", "ecma_transforms_typescript", "ecma_visit"] }
swc_ecmascript = { version = "*", features = ["codegen", "parser", "transforms", "typescript", "visit"] }
