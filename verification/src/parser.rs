pub mod error;
pub mod grammar;
pub mod parser;
pub mod printing;
pub mod program;
pub mod progress;
