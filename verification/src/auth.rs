//! Passwords and session tokens.

pub mod password;
pub mod tokenizer;

pub use tokenizer::Tokenizer;
