//! The GLSL ES 1.0 front end: a small AST, the bytecode it compiles to and
//! the compiler between them.

pub mod ast;
pub mod compiler;
pub mod opcode;
pub mod parser;
pub mod syntax;
