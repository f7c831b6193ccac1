pub mod tree;
pub mod text;
pub mod latex;
pub mod bibtex;
pub mod config;
pub mod green;
pub mod cst_support;
pub mod scan;
pub mod latexmkrc;
pub mod file_list;
pub mod tex;
pub mod build_log;
pub mod references;
pub mod fixture;
pub mod paths;
