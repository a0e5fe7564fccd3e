//! The parsing engine of a query language: a table-driven shift/reduce automaton
//! that repairs syntax errors by a bounded search over parse attempts, with its
//! grammar's non-terminals, and the plain data types of the server around it.

pub mod config;
pub mod cst;
pub mod error;
pub mod grammar;
pub mod handshake;
pub mod parser;
pub mod protocol;
pub mod table;
pub mod tokens;
