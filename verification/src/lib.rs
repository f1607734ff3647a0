//! A small dynamically typed scripting language with verified parts.
//!
//! Source text is cut into tokens (`lexer`), parsed by recursive descent
//! with precedence climbing into a tree (`parser`, `ast`), and evaluated by
//! walking the tree in a scope of variables (`evaluate`). Each step has a
//! mathematical model of what it computes, and the functions that compute
//! it are proved against that model:
//!
//! - `lexer::lexer::tokens_from` says which tokens a text holds;
//! - `parser::grammar` says which program a token sequence is;
//! - `evaluate::semantics` says what a program evaluates to.
//!
//! An evaluation never blocks and always ends. It sees its input and output
//! as a `Console` of lines handed over beforehand and of text written, and
//! it takes a budget of fuel, of which every call of a closure and every
//! round of a loop uses one unit.
//!
//! Integer arithmetic is checked: a result that does not fit the machine
//! integer is a fault, as a division by zero is.

pub mod ast;
pub mod evaluate;
pub mod lexer;
pub mod parser;
