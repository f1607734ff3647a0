pub mod build_in;
pub mod calls;
pub mod console;
pub mod environment;
pub mod error;
pub mod evaluate;
pub mod expressions;
pub mod integer;
pub mod laws;
pub mod loops;
pub mod object;
pub mod operators;
pub mod semantics;
pub mod statements;
