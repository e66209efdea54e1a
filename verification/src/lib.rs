//! Lexical tokens of a parser front end.
//!
//! A token is a classified piece of source text. It remembers the text it was read from and the
//! whitespace in front of it, so that a sequence of tokens can be printed back to the exact
//! source. Operator tokens also carry the precedence and associativity data that an expression
//! parser needs.

pub mod source;
pub mod syntax;
