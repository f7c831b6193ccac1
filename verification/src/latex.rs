pub mod kind;
pub mod token;
pub mod lexer;
pub mod parser;
pub mod progress;
pub mod shape;
pub mod cst;
pub mod commands;
