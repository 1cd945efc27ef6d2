//! A front end and code generator for a small Pascal-like teaching
//! language: a scanner, a type-checking recursive-descent parser and a
//! generator of label-and-goto instructions.

pub mod base;
pub mod compiler;
pub mod parser;
pub mod scanner;
pub mod text;
