pub mod kind;
pub mod cst;
