//! A lexical analyzer and recursive-descent expression parser for a subset of
//! the Lua 5.4 grammar.
//!
//! Source text is scanned into a sequence of [`token::Token`]s, which a
//! [`parser::Parser`] turns into an abstract syntax tree of expressions
//! (literals, unary and binary operators, table constructors, variable access
//! chains, function and method calls).  Both stages are specified against
//! mathematical models of their behaviour: the scanner refines
//! [`scan_model::spec_scan`], and the parser refines the grammar functions of
//! [`parse_model`].

pub mod ast;
pub mod debug_visitor;
pub mod parse_model;
pub mod parser;
pub mod parsing_error;
pub mod scan_model;
pub mod scanner;
pub mod token;
