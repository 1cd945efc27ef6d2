pub mod ast;
pub mod errors;
pub mod objects;
pub mod symbol_table;
pub mod token;
pub mod tree;
pub mod types;
pub mod variable;
