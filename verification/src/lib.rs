//! Front-end core of a small compiler: the abstract syntax tree, the
//! semantic-analysis pipeline with its entry-point check, the structured
//! diagnostic reporting engine, and the builtin declaration table.

pub mod analyzer;
pub mod ast;
pub mod builtins;
pub mod report;
pub mod semantic;
pub mod span;
pub mod strcase;
