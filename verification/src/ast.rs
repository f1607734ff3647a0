pub mod expression;
pub mod precedences;
pub mod statement;
pub mod text;
