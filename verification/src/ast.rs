//! The abstract syntax tree the evaluator consumes. The tree is handed in
//! already structurally valid; the evaluator performs no grammar checks.

pub mod lua_program;
